use reddit_clawler::reddit_parser::{
    RedditCrawlerPost, RedditMediaProviderType, RedditPostParser,
};
use reddit_clawler::submitted_response::{
    Data, GalleryData, Image, Item, Media, MediaMetadataEntry, MediaMetadataValue, Preview,
    RedditSubmittedChild, RedditSubmittedChildData, RedditSubmittedResponse, RedditVideo, Source,
    VariantMedia, Variants, S,
};

fn base_data() -> RedditSubmittedChildData {
    RedditSubmittedChildData {
        subreddit: "pics".to_string(),
        title: "a post".to_string(),
        is_reddit_media_domain: false,
        media_only: false,
        ups: 42,
        id: "abc123".to_string(),
        author: "someone".to_string(),
        url: "https://example.com/page".to_string(),
        created_utc: 1700000000,
        media: None,
        is_video: None,
        is_gallery: None,
        media_metadata: None,
        gallery_data: None,
        preview: None,
    }
}

fn response_with(data: RedditSubmittedChildData) -> RedditSubmittedResponse {
    RedditSubmittedResponse {
        kind: "Listing".to_string(),
        data: Data {
            after: None,
            children: vec![RedditSubmittedChild { kind: "t3".to_string(), data }],
            before: None,
        },
    }
}

fn reddit_video(hls_url: &str) -> RedditVideo {
    RedditVideo {
        bitrate_kbps: 4800,
        fallback_url: "https://v.redd.it/xyz/DASH_1080.mp4".to_string(),
        height: 1080,
        width: 1920,
        scrubber_media_url: "https://v.redd.it/xyz/DASH_96.mp4".to_string(),
        dash_url: "https://v.redd.it/xyz/DASHPlaylist.mpd".to_string(),
        duration: 14,
        hls_url: hls_url.to_string(),
        is_gif: false,
        transcoding_status: "completed".to_string(),
        has_audio: Some(true),
    }
}

fn meta_entry(key: &str, u: Option<&str>, mp4: Option<&str>) -> MediaMetadataEntry {
    MediaMetadataEntry {
        key: key.to_string(),
        value: MediaMetadataValue {
            status: "valid".to_string(),
            s: Some(S {
                y: 100,
                x: 100,
                u: u.map(|s| s.to_string()),
                mp4: mp4.map(|s| s.to_string()),
            }),
            id: Some(key.to_string()),
        },
    }
}

#[test]
fn it_detects_reddit_image() {
    let mut data = base_data();
    data.is_reddit_media_domain = true;
    data.is_video = Some(false);
    data.url = "https://i.redd.it/abcdef.jpg".to_string();
    let res = response_with(data);

    let post_parser = RedditPostParser::default();
    let parsed_posts = post_parser.parse(&res);

    assert_eq!(parsed_posts.len(), 1);
    for mt in parsed_posts.iter() {
        let RedditCrawlerPost { provider, .. } = mt;
        assert_eq!(provider, &RedditMediaProviderType::RedditImage);
    }
}

#[test]
fn it_detects_reddit_gallery() {
    let mut data = base_data();
    data.is_reddit_media_domain = false;
    data.is_gallery = Some(true);
    data.media_metadata = Some(vec![
        meta_entry("m1", Some("https://i.redd.it/m1.jpg"), None),
        meta_entry("m2", Some("https://i.redd.it/m2.jpg"), None),
        meta_entry("m3", Some("https://i.redd.it/m3.jpg"), None),
    ]);
    data.gallery_data = Some(GalleryData {
        items: vec![
            Item { media_id: "m1".to_string(), id: 1 },
            Item { media_id: "m2".to_string(), id: 2 },
            Item { media_id: "m3".to_string(), id: 3 },
        ],
    });
    let res = response_with(data);

    let post_parser = RedditPostParser::default();
    let parsed_posts = post_parser.parse(&res);

    assert_eq!(parsed_posts.len(), 3);
    for mt in parsed_posts.iter() {
        let RedditCrawlerPost { provider, .. } = mt;
        assert_eq!(provider, &RedditMediaProviderType::RedditGalleryImage);
    }
}

#[test]
fn it_detects_reddit_video() {
    let mut data = base_data();
    data.is_reddit_media_domain = true;
    data.is_video = Some(true);
    data.url = "https://v.redd.it/xyz".to_string();
    data.media = Some(Media {
        type_field: None,
        oembed: None,
        reddit_video: Some(reddit_video("https://v.redd.it/xyz/HLSPlaylist.m3u8")),
    });
    let res = response_with(data);

    let post_parser = RedditPostParser::default();
    let parsed_posts = post_parser.parse(&res);

    assert_eq!(parsed_posts.len(), 1);
    for mt in parsed_posts.iter() {
        let RedditCrawlerPost { provider, .. } = mt;
        assert_eq!(provider, &RedditMediaProviderType::RedditVideo);
    }
}

#[test]
fn it_detects_imgur_image() {
    let mut data = base_data();
    data.url = "https://i.imgur.com/abcdef.jpg".to_string();
    let res = response_with(data);

    let post_parser = RedditPostParser::default();
    let parsed_posts = post_parser.parse(&res);

    assert_eq!(parsed_posts.len(), 1);
    for mt in parsed_posts.iter() {
        let RedditCrawlerPost { provider, .. } = mt;
        assert_eq!(provider, &RedditMediaProviderType::ImgurImage);
    }
}

#[test]
fn it_detects_youtube_video() {
    let mut data = base_data();
    data.url = "https://youtu.be/dQw4w9WgXcQ".to_string();
    data.media = Some(Media {
        type_field: Some("youtube.com".to_string()),
        oembed: None,
        reddit_video: None,
    });
    let res = response_with(data);

    let post_parser = RedditPostParser::default();
    let parsed_posts = post_parser.parse(&res);

    assert_eq!(parsed_posts.len(), 1);
    for mt in parsed_posts.iter() {
        let RedditCrawlerPost { provider, .. } = mt;
        assert_eq!(provider, &RedditMediaProviderType::YoutubeVideo);
    }
}

#[test]
fn it_detects_redgifs_image() {
    let mut data = base_data();
    data.url = "https://www.redgifs.com/i/abcdef.jpg".to_string();
    let res = response_with(data);

    let post_parser = RedditPostParser::default();
    let parsed_posts = post_parser.parse(&res);

    assert_eq!(parsed_posts.len(), 1);
    for mt in parsed_posts.iter() {
        let RedditCrawlerPost { provider, .. } = mt;
        assert_eq!(provider, &RedditMediaProviderType::RedgifsImage);
    }
}

#[test]
fn it_detects_redgifs_video() {
    let mut data = base_data();
    data.url = "https://www.redgifs.com/watch/abcdef".to_string();
    let res = response_with(data);

    let post_parser = RedditPostParser::default();
    let parsed_posts = post_parser.parse(&res);

    assert_eq!(parsed_posts.len(), 1);
    for mt in parsed_posts.iter() {
        let RedditCrawlerPost { provider, .. } = mt;
        assert_eq!(provider, &RedditMediaProviderType::RedgifsVideo);
    }
}

#[test]
fn it_detects_redgifs_video_iframe() {
    let mut data = base_data();
    data.url = "https://www.redgifs.com/ifr/abcdef".to_string();
    let res = response_with(data);

    let post_parser = RedditPostParser::default();
    let parsed_posts = post_parser.parse(&res);

    assert_eq!(parsed_posts.len(), 1);
    for mt in parsed_posts.iter() {
        let RedditCrawlerPost { provider, .. } = mt;
        assert_eq!(provider, &RedditMediaProviderType::RedgifsVideo);
    }
}

#[test]
fn gallery_drops_items_without_resolved_source() {
    let mut data = base_data();
    data.is_gallery = Some(true);
    data.media_metadata = Some(vec![
        meta_entry("m1", Some("https://i.redd.it/m1.jpg"), None),
        meta_entry("m2", None, None),
        meta_entry("m3", Some("https://i.redd.it/m3.jpg"), None),
    ]);
    data.gallery_data = Some(GalleryData {
        items: vec![
            Item { media_id: "m1".to_string(), id: 1 },
            Item { media_id: "m2".to_string(), id: 2 },
            Item { media_id: "m3".to_string(), id: 3 },
        ],
    });
    let child = RedditSubmittedChild { kind: "t3".to_string(), data };

    let post_parser = RedditPostParser::default();
    let posts = post_parser.parse_user_submitted(&child);

    assert_eq!(posts.len(), 2);
    assert_eq!(posts[0].index, Some(0));
    assert_eq!(posts[0].url, "https://i.redd.it/m1.jpg");
    assert_eq!(posts[0].media_id, Some("m1".to_string()));
    assert_eq!(posts[0].is_gallery, Some(true));
    assert_eq!(posts[0].title, "a post-0");
    // the dropped item leaves a gap: positions stay those of the gallery
    assert_eq!(posts[1].index, Some(2));
    assert_eq!(posts[1].url, "https://i.redd.it/m3.jpg");
    assert_eq!(posts[1].title, "a post-2");
    assert!(posts[0].index < posts[1].index);
}

#[test]
fn metadata_without_gallery_flag_yields_gif_videos() {
    let mut data = base_data();
    data.media_metadata = Some(vec![
        meta_entry("k1", None, Some("https://i.redd.it/k1.mp4")),
        meta_entry("k2", None, Some("https://i.redd.it/k2.mp4")),
    ]);
    let child = RedditSubmittedChild { kind: "t3".to_string(), data };

    let post_parser = RedditPostParser::default();
    let posts = post_parser.parse_user_submitted(&child);

    assert_eq!(posts.len(), 2);
    assert_eq!(posts[0].provider, RedditMediaProviderType::RedditGifVideo);
    assert_eq!(posts[0].extension, "mp4");
    assert_eq!(posts[0].index, Some(0));
    assert_eq!(posts[0].media_id, Some("k1".to_string()));
    assert_eq!(posts[0].url, "https://i.redd.it/k1.mp4");
    assert_eq!(posts[1].index, Some(1));
}

#[test]
fn unmatched_post_yields_empty_list() {
    let mut data = base_data();
    data.url = "https://example.com/article".to_string();
    let child = RedditSubmittedChild { kind: "t3".to_string(), data };

    let post_parser = RedditPostParser::default();
    let posts = post_parser.parse_user_submitted(&child);

    assert!(posts.is_empty());
}

#[test]
fn still_image_extension_follows_url_suffix() {
    let mut data = base_data();
    data.is_reddit_media_domain = true;
    data.is_video = Some(false);
    data.url = "https://i.redd.it/abcdef.gif".to_string();
    let child = RedditSubmittedChild { kind: "t3".to_string(), data };

    let post_parser = RedditPostParser::default();
    let posts = post_parser.parse_user_submitted(&child);
    assert_eq!(posts.len(), 1);
    assert_eq!(posts[0].extension, "gif");
    assert_eq!(posts[0].provider, RedditMediaProviderType::RedditImage);

    let mut data = base_data();
    data.is_reddit_media_domain = true;
    data.is_video = Some(false);
    data.url = "https://i.redd.it/abcdef.jpg".to_string();
    let child = RedditSubmittedChild { kind: "t3".to_string(), data };
    let posts = post_parser.parse_user_submitted(&child);
    assert_eq!(posts.len(), 1);
    assert_eq!(posts[0].extension, "webp");
}

#[test]
fn preview_mp4_variant_wins_over_fallback() {
    let mut data = base_data();
    data.is_reddit_media_domain = true;
    data.is_video = Some(false);
    data.url = "https://i.redd.it/abcdef.jpg".to_string();
    data.preview = Some(Preview {
        images: vec![Image {
            source: Source {
                url: "https://preview.redd.it/abcdef.jpg".to_string(),
                width: 800,
                height: 600,
            },
            resolutions: vec![],
            variants: Variants {
                obfuscated: None,
                nsfw: None,
                mp4: Some(VariantMedia {
                    source: Source {
                        url: "https://preview.redd.it/abcdef.mp4".to_string(),
                        width: 800,
                        height: 600,
                    },
                    resolutions: vec![],
                }),
                gif: None,
            },
            id: "img1".to_string(),
        }],
        enabled: true,
        reddit_video_preview: None,
    });
    let child = RedditSubmittedChild { kind: "t3".to_string(), data };

    let post_parser = RedditPostParser::default();
    let posts = post_parser.parse_user_submitted(&child);
    assert_eq!(posts.len(), 1);
    assert_eq!(posts[0].extension, "mp4");
    assert_eq!(posts[0].url, "https://preview.redd.it/abcdef.mp4");
    assert_eq!(posts[0].provider, RedditMediaProviderType::RedditImage);
}

#[test]
fn video_post_without_payload_yields_nothing() {
    let mut data = base_data();
    data.is_reddit_media_domain = true;
    data.is_video = Some(true);
    data.media = Some(Media { type_field: None, oembed: None, reddit_video: None });
    let child = RedditSubmittedChild { kind: "t3".to_string(), data };

    let post_parser = RedditPostParser::default();
    let posts = post_parser.parse_user_submitted(&child);
    assert!(posts.is_empty());
}

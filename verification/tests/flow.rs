use img_proxy::cache::VariantCache;
use img_proxy::config::{key_authorized, Config, ConfigStore};
use img_proxy::errors::AppError;
use img_proxy::orchestrator::{
    accepts_webp, cache_key, chosen_variant, complete_webp_miss, consult_cache, content_type,
    plan_request, redirect_outcome, str_contains, CacheDecision, Outcome, RequestPlan, Variant,
};
use img_proxy::remote::{build_upload_path, extension_of, validate_info, InfoEnvelope};

fn test_config() -> Config {
    Config {
        version: String::from("1.0.0"),
        api_key: String::from("secret"),
        alist_host: String::from("http://localhost:8080"),
        alist_token: String::from("token"),
        alist_dir: String::from("mydir"),
    }
}

#[test]
fn cache_set_then_get_returns_value() {
    let mut cache = VariantCache::new();
    cache.set(String::from("k"), vec![1u8, 2, 3]);
    assert_eq!(cache.get(&String::from("k")), Some(vec![1u8, 2, 3]));
}

#[test]
fn cache_set_replaces_value() {
    let mut cache = VariantCache::new();
    cache.set(String::from("k"), vec![1u8]);
    cache.set(String::from("k"), vec![2u8]);
    assert_eq!(cache.get(&String::from("k")), Some(vec![2u8]));
}

#[test]
fn cache_clear_empties_everything() {
    let mut cache = VariantCache::new();
    cache.set(String::from("a"), vec![1u8]);
    cache.set(String::from("b"), vec![2u8]);
    cache.clear();
    assert_eq!(cache.get(&String::from("a")), None);
    assert_eq!(cache.get(&String::from("b")), None);
}

#[test]
fn cache_fresh_write_survives_pressure() {
    let mut cache = VariantCache::new();
    for i in 0..150u32 {
        let key = format!("key-{i}");
        cache.set(key.clone(), vec![i as u8]);
        assert_eq!(cache.get(&key), Some(vec![i as u8]));
    }
}

#[test]
fn cache_keys_differ_per_variant() {
    let path = String::from("mydir/a/b.jpg");
    let kw = cache_key(&path, true);
    let kj = cache_key(&path, false);
    assert_eq!(kw, "mydir/a/b.jpg-thumb-true");
    assert_eq!(kj, "mydir/a/b.jpg-thumb-false");
    assert_ne!(kw, kj);
}

#[test]
fn negotiation_finds_webp_token() {
    assert!(accepts_webp("text/html,image/avif,image/webp,*/*;q=0.8"));
    assert!(accepts_webp("image/webp"));
    assert!(!accepts_webp("image/png,image/jpeg"));
    assert!(!accepts_webp(""));
    assert!(str_contains("abcde", "cd"));
    assert!(!str_contains("abcde", "ce"));
    assert!(str_contains("abc", ""));
}

#[test]
fn missing_path_is_bad_path() {
    let conf = test_config();
    let r = plan_request(None, None, None, &conf);
    assert_eq!(r.unwrap_err(), AppError::BadPath);
}

#[test]
fn no_size_hint_is_pass_through() {
    let conf = test_config();
    let r = plan_request(Some(String::from("a/b.jpg")), None, None, &conf).unwrap();
    assert_eq!(chosen_variant(&r), Variant::Original);
    match r {
        RequestPlan::PassThrough { full_path } => assert_eq!(full_path, "mydir/a/b.jpg"),
        RequestPlan::Reduced { .. } => panic!("pass-through expected"),
    }
}

#[test]
fn small_webp_request_builds_webp_key() {
    let conf = test_config();
    let size = String::from("small");
    let accept = String::from("text/html,image/webp");
    let r = plan_request(
        Some(String::from("a/b.jpg")),
        Some(&size),
        Some(&accept),
        &conf,
    )
    .unwrap();
    assert_eq!(chosen_variant(&r), Variant::ThumbnailWebp);
    match r {
        RequestPlan::Reduced {
            full_path,
            webp,
            key,
        } => {
            assert_eq!(full_path, "mydir/a/b.jpg");
            assert!(webp);
            assert_eq!(key, "mydir/a/b.jpg-thumb-true");
        }
        RequestPlan::PassThrough { .. } => panic!("reduced expected"),
    }
}

#[test]
fn first_small_request_misses_then_hits() {
    let mut cache = VariantCache::new();
    let key = String::from("mydir/a/b.jpg-thumb-true");
    assert!(matches!(
        consult_cache(&cache, &key, true),
        CacheDecision::Miss
    ));
    let encoded = vec![9u8, 9, 9];
    let outcome = complete_webp_miss(&mut cache, &key, encoded.clone());
    match outcome {
        Outcome::Bytes { body, webp } => {
            assert!(webp);
            assert_eq!(body, encoded);
        }
        Outcome::RedirectTo { .. } => panic!("bytes expected"),
    }
    match consult_cache(&cache, &key, true) {
        CacheDecision::Hit { outcome } => match outcome {
            Outcome::Bytes { body, webp } => {
                assert!(webp);
                assert_eq!(body, encoded);
            }
            Outcome::RedirectTo { .. } => panic!("bytes expected"),
        },
        CacheDecision::Miss => panic!("hit expected"),
    }
    assert_eq!(content_type(true), "image/webp");
    assert_eq!(content_type(false), "image/jpeg");
}

#[test]
fn clear_turns_cached_request_into_fresh_miss() {
    let mut cache = VariantCache::new();
    let key = String::from("mydir/a/b.jpg-thumb-false");
    complete_webp_miss(&mut cache, &key, vec![5u8]);
    assert!(matches!(
        consult_cache(&cache, &key, false),
        CacheDecision::Hit { .. }
    ));
    cache.clear();
    assert!(matches!(
        consult_cache(&cache, &key, false),
        CacheDecision::Miss
    ));
}

#[test]
fn backend_failure_resolves_to_remote_not_found() {
    let env = InfoEnvelope {
        code: 404,
        name: Some(String::from("b.jpg")),
        raw_url: Some(String::from("https://backend/raw/b.jpg")),
    };
    assert_eq!(validate_info(env).unwrap_err(), AppError::RemoteNotFound);
    let incomplete = InfoEnvelope {
        code: 200,
        name: Some(String::from("b.jpg")),
        raw_url: None,
    };
    assert_eq!(
        validate_info(incomplete).unwrap_err(),
        AppError::RemoteNotFound
    );
}

#[test]
fn successful_lookup_redirects_to_raw_url() {
    let env = InfoEnvelope {
        code: 200,
        name: Some(String::from("b.jpg")),
        raw_url: Some(String::from("https://backend/raw/b.jpg")),
    };
    let info = validate_info(env).unwrap();
    assert_eq!(info.name, "b.jpg");
    match redirect_outcome(info) {
        Outcome::RedirectTo { url } => assert_eq!(url, "https://backend/raw/b.jpg"),
        Outcome::Bytes { .. } => panic!("redirect expected"),
    }
}

#[test]
fn api_key_check_is_exact() {
    let expected = String::from("secret");
    let right = String::from("secret");
    let wrong = String::from("Secret");
    assert!(key_authorized(Some(&right), &expected));
    assert!(!key_authorized(Some(&wrong), &expected));
    assert!(!key_authorized(None, &expected));
}

#[test]
fn config_store_reads_and_reloads_whole_values() {
    let mut store = ConfigStore::new(test_config());
    assert_eq!(store.get_config().alist_dir, "mydir");
    let mut fresh = test_config();
    fresh.alist_dir = String::from("elsewhere");
    fresh.version = String::from("2.0.0");
    store.reload_config(fresh);
    assert_eq!(store.get_config().alist_dir, "elsewhere");
    assert_eq!(store.get_config().version, "2.0.0");
}

#[test]
fn extension_is_text_after_last_dot() {
    assert_eq!(extension_of("photo.jpg"), "jpg");
    assert_eq!(extension_of("archive.tar.gz"), "gz");
    assert_eq!(extension_of("noext"), "noext");
    assert_eq!(extension_of("trailing."), "");
}

#[test]
fn upload_path_joins_segments() {
    let dir = String::from("mydir");
    let year = String::from("2024");
    let ts = String::from("1700000000");
    let p = build_upload_path(&dir, &year, &ts, "x.png");
    assert_eq!(p, "mydir/2024/1700000000.png");
}

#[test]
fn error_messages_name_the_kind() {
    assert_eq!(AppError::Unauthorized.message(), "API-KEY not correct");
    assert_eq!(AppError::BadPath.message(), "img_path not found");
    assert_eq!(AppError::RemoteNotFound.message(), "remote file not found");
}

use wfs2map::transition::{
    BucketLocationCache, Error, Foo, WarmBackendS3, DEFAULT_BUCKET_LOCATION,
    REMOVAL_ACCELERATE_ENDPOINT,
};

#[test]
fn empty_cache_has_no_location() {
    let cache = BucketLocationCache::new();
    assert_eq!(cache.get("photos"), Err(Error::BucketLocationNotFound));
}

#[test]
fn cache_reads_back_what_was_set() {
    let mut cache = BucketLocationCache::new();
    cache.set("photos", "eu-west-1");
    cache.set("logs", "us-east-2");
    assert_eq!(cache.get("photos"), Ok("eu-west-1".to_string()));
    assert_eq!(cache.get("logs"), Ok("us-east-2".to_string()));
    cache.set("photos", "ap-south-1");
    assert_eq!(cache.get("photos"), Ok("ap-south-1".to_string()));
    assert_eq!(cache.get("logs"), Ok("us-east-2".to_string()));
    assert_eq!(cache.get("videos"), Err(Error::BucketLocationNotFound));
}

fn backend() -> WarmBackendS3 {
    WarmBackendS3::new11("http://example.com", "tier-1").ok().unwrap()
}

#[test]
fn get_bucket_location_caches_the_default() {
    let b = backend();
    let mut cache = BucketLocationCache::new();
    let first = b.client11.get_bucket_location("bbb", &mut cache);
    assert_eq!(first, Ok(DEFAULT_BUCKET_LOCATION.to_string()));
    assert_eq!(cache.get("bbb"), Ok("aaa".to_string()));
    let again = b.client11.get_bucket_location("bbb", &mut cache);
    assert_eq!(again, Ok("aaa".to_string()));
}

#[test]
fn get_bucket_location_reports_cached_location() {
    let b = backend();
    let mut cache = BucketLocationCache::new();
    cache.set("photos", "eu-west-1");
    assert_eq!(b.client11.get_bucket_location("photos", &mut cache), Ok("eu-west-1".to_string()));
    assert_eq!(cache.get("photos"), Ok("eu-west-1".to_string()));
    assert_eq!(cache.get("bbb"), Err(Error::BucketLocationNotFound));
}

#[test]
fn set_s3_transfer_accelerate_leaves_endpoint() {
    let b = backend();
    let mut endpoint = "s3-accelerate.example".to_string();
    b.client11.set_s3_transfer_accelerate("aaaaa", &mut endpoint);
    assert_eq!(endpoint, "s3-accelerate.example");
}

#[test]
fn set_s3_transfer_accelerate2_replaces_endpoint() {
    let b = backend();
    let mut endpoint = "old".to_string();
    b.client11.set_s3_transfer_accelerate2(REMOVAL_ACCELERATE_ENDPOINT, &mut endpoint);
    assert_eq!(endpoint, "aaaaa");
}

#[test]
fn new11_sets_up_client() {
    let b = backend();
    assert!(!b.client11.secure);
    assert_eq!(b.client11.region, "tier-1");
    assert_eq!(b.client11.endpoint_url, "http://example.com/");
    assert_eq!(b.bucket, "");
    assert_eq!(b.prefix, "");
    assert_eq!(b.storage_class, "");
    assert!(std::sync::Arc::ptr_eq(&b.core11.0, &b.client11));
    assert_eq!(b.client11.s3_accelerate_endpoint.try_lock().unwrap().as_str(), "");
    assert_eq!(
        b.client11.bucket_loc_cache.try_lock().unwrap().get("bbb"),
        Err(Error::BucketLocationNotFound)
    );
}

#[test]
fn checked_new11_refuses_bad_url() {
    assert!(WarmBackendS3::checked_new11("not a url", "tier").is_none());
    let b = WarmBackendS3::checked_new11("https://s3.example.com/path", "t").unwrap();
    assert_eq!(b.client11.endpoint_url, "https://s3.example.com/path");
    assert_eq!(b.client11.region, "t");
}

#[test]
fn foo_default_is_baz() {
    match Foo::default() {
        Foo::Baz { a, b, c, d, e, ty } => {
            assert_eq!(a, 12);
            assert_eq!(b, 0);
            assert_eq!(c, Some(0));
            assert_eq!(d, vec![1, 2, 3]);
            assert_eq!(e, "four");
            assert_eq!(ty, "");
        }
        _ => panic!("default is not Baz"),
    }
}

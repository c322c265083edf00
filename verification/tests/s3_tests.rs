use yana_media::s3util::{
    build_public_url, generate_object_key, map_acl, resolve_content_type, sanitize_file_name,
};

#[test]
fn sanitize_keeps_safe_characters_and_replaces_the_rest() {
    assert_eq!(sanitize_file_name("photo-1_final.png"), "photo-1_final.png");
    assert_eq!(sanitize_file_name("my file(1).png"), "my_file_1_.png");
    assert_eq!(sanitize_file_name("  spaced.png  "), "spaced.png");
    assert_eq!(sanitize_file_name(""), "upload.bin");
    assert_eq!(sanitize_file_name("   "), "upload.bin");
}

#[test]
fn acl_names_map_case_insensitively() {
    assert_eq!(map_acl(None), Ok(None));
    assert_eq!(map_acl(Some("")), Ok(None));
    assert_eq!(map_acl(Some("   ")), Ok(None));
    assert_eq!(map_acl(Some("private")), Ok(Some(String::from("private"))));
    assert_eq!(
        map_acl(Some("Public-Read")),
        Ok(Some(String::from("public-read")))
    );
    assert_eq!(
        map_acl(Some("  BUCKET-OWNER-FULL-CONTROL ")),
        Ok(Some(String::from("bucket-owner-full-control")))
    );
    assert!(map_acl(Some("world-writable")).is_err());
}

#[test]
fn public_url_prefers_base_then_endpoint() {
    assert_eq!(
        build_public_url(Some("https://cdn.example/"), None, "b", "r", "k/x.png", false),
        "https://cdn.example/k/x.png"
    );
    assert_eq!(
        build_public_url(None, Some("https://r2.example//"), "bkt", "auto", "k.png", true),
        "https://r2.example/bkt/k.png"
    );
    assert_eq!(
        build_public_url(None, Some("https://r2.example"), "bkt", "auto", "k.png", false),
        "https://r2.example/k.png"
    );
    assert_eq!(
        build_public_url(None, None, "bkt", "us-east-1", "k.png", true),
        "https://s3.us-east-1.amazonaws.com/bkt/k.png"
    );
    assert_eq!(
        build_public_url(None, None, "bkt", "us-east-1", "k.png", false),
        "https://bkt.s3.us-east-1.amazonaws.com/k.png"
    );
}

#[test]
fn object_keys_carry_prefix_date_uuid_and_name() {
    let k = generate_object_key(Some("/uploads/"), "my photo.png");
    assert!(k.starts_with("uploads/"));
    assert!(k.ends_with("-my_photo.png"));
    // prefix + date (three segments) + unique file segment
    assert_eq!(k.split('/').count(), 5);

    let k2 = generate_object_key(None, "x.png");
    assert_eq!(k2.split('/').count(), 4);
    let k3 = generate_object_key(None, "x.png");
    assert_ne!(k2, k3);

    // a prefix that is nothing but slashes contributes no segment
    let slashes_only = generate_object_key(Some("//"), "x.png");
    assert_eq!(slashes_only.split('/').count(), 4);
}

#[test]
fn content_type_follows_the_file_name() {
    assert_eq!(
        resolve_content_type("photo.png"),
        Some(String::from("image/png"))
    );
    assert_eq!(
        resolve_content_type("photo.jpg"),
        Some(String::from("image/jpeg"))
    );
    assert_eq!(resolve_content_type("archive.unknownext"), None);
}

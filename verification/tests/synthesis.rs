use storage_bench::record::{Document, SimpleRecord, Variant};
use storage_bench::synth::{
    synthesize_complex, synthesize_document, synthesize_flat, synthesize_variant,
};

fn assert_same_flat_content(a: &SimpleRecord, b: &SimpleRecord) {
    assert_eq!(a.name, b.name);
    assert_eq!(a.email, b.email);
    assert_eq!(a.age, b.age);
    assert_eq!(a.bio, b.bio);
    assert_eq!(a.avatar_url, b.avatar_url);
    assert_eq!(a.preferences, b.preferences);
    assert_eq!(a.social_links, b.social_links);
}

fn assert_same_document_content(a: &Document, b: &Document) {
    assert_eq!(a.name, b.name);
    assert_eq!(a.email, b.email);
    assert_eq!(a.age, b.age);
    assert_eq!(a.profile, b.profile);
    assert_eq!(a.metadata, b.metadata);
}

#[test]
fn same_index_reproducible_flat() {
    for i in [1u32, 2, 3, 4, 5, 6, 7, 12, 35, 100] {
        let a = synthesize_flat(i);
        let b = synthesize_flat(i);
        assert_same_flat_content(&a, &b);
    }
}

#[test]
fn same_index_reproducible_document() {
    for i in [1u32, 2, 3, 6, 15, 28] {
        let a = synthesize_document(i);
        let b = synthesize_document(i);
        assert_same_document_content(&a, &b);
    }
}

#[test]
fn same_index_reproducible_complex() {
    for i in [1u32, 2, 3, 6, 15, 30, 105] {
        let a = synthesize_complex(i);
        let b = synthesize_complex(i);
        assert_same_document_content(&a, &b);
    }
}

#[test]
fn identifier_fresh_each_call() {
    let a = synthesize_flat(1);
    let b = synthesize_flat(1);
    assert_eq!(a.id.len(), 36);
    assert_eq!(b.id.len(), 36);
    assert_ne!(a.id, b.id);
}

#[test]
fn flat_text_fields_exact() {
    let r = synthesize_flat(7);
    assert_eq!(r.name, "User 7");
    assert_eq!(r.email, "user7@example.com");
    assert_eq!(r.age, 27);
    assert_eq!(r.bio, "Bio for user 7");
    assert_eq!(r.avatar_url, None);
    assert_eq!(r.preferences.theme, "light");
    assert_eq!(r.preferences.language, "en");
    assert_eq!(r.preferences.notifications, "false");
    assert_eq!(
        r.social_links,
        vec![
            "https://twitter.com/user7".to_string(),
            "https://github.com/user7".to_string()
        ]
    );
    assert_eq!(r.created_at, "2024-08-30T08:00:00Z");
}

#[test]
fn field_rules_hold() {
    for i in 1u32..=30 {
        let r = synthesize_flat(i);
        assert_eq!(r.preferences.theme, if i % 2 == 0 { "dark" } else { "light" });
        let expected_language = match i % 3 {
            0 => "ja",
            1 => "en",
            _ => "es",
        };
        assert_eq!(r.preferences.language, expected_language);
        assert_eq!(
            r.preferences.notifications,
            if i % 4 == 0 { "true" } else { "false" }
        );
        assert_eq!(r.avatar_url.is_some(), i % 3 == 0);
        assert_eq!(r.age as u32, 20 + (i % 60));
    }
}

#[test]
fn avatar_url_value() {
    let r = synthesize_flat(12);
    assert_eq!(
        r.avatar_url,
        Some("https://example.com/avatar12.jpg".to_string())
    );
}

#[test]
fn representations_share_field_values() {
    for i in [1u32, 2, 3, 4, 9, 44] {
        let flat = synthesize_flat(i);
        let doc = synthesize_document(i);
        assert_eq!(doc.name.as_deref(), Some(flat.name.as_str()));
        assert_eq!(doc.email.as_deref(), Some(flat.email.as_str()));
        assert_eq!(doc.age, Some(flat.age));
        let profile = doc.profile.expect("simple document has a profile");
        assert_eq!(profile.bio.as_deref(), Some(flat.bio.as_str()));
        assert_eq!(profile.avatar_url, flat.avatar_url);
        let prefs = profile.preferences.expect("simple document has preferences");
        assert_eq!(prefs.theme, flat.preferences.theme);
        assert_eq!(prefs.language, flat.preferences.language);
        assert_eq!(prefs.notifications, flat.preferences.notifications);
        assert!(prefs.extended.is_none());
        assert_eq!(profile.social_links, Some(flat.social_links));
        assert!(profile.achievements.is_none());
        assert!(profile.statistics.is_none());
    }
}

#[test]
fn complex_record_fields_index_one() {
    let d = synthesize_complex(1);
    assert_eq!(d.name.as_deref(), Some("Complex User 1"));
    assert_eq!(d.email.as_deref(), Some("complex.user1@example.com"));
    assert_eq!(d.age, Some(21));
    let profile = d.profile.expect("complex document has a profile");
    let achievements = profile.achievements.expect("two achievements");
    assert_eq!(achievements.len(), 2);
    assert_eq!(achievements[0].id, "achievement_1");
    assert_eq!(achievements[0].points, Some(110));
    assert_eq!(achievements[1].id, "achievement_1_2");
    assert_eq!(achievements[1].points, Some(215));
    let stats = profile.statistics.expect("statistics block");
    assert_eq!(stats.posts_count, Some(105));
    assert_eq!(stats.followers_count, Some(520));
    assert_eq!(stats.following_count, Some(210));
    assert_eq!(stats.likes_received, Some(1050));
    assert_eq!(stats.comments_made, Some(53));
    assert!(stats.engagement_rate.is_none());
    assert!(profile.total_achievement_points.is_none());
    assert!(profile.bio_analysis.is_none());
    let metadata = d.metadata.expect("metadata block");
    assert_eq!(metadata.login_count, Some(101));
    assert_eq!(metadata.is_verified, Some(false));
    assert_eq!(metadata.is_premium, Some(false));
    assert_eq!(
        metadata.tags,
        Some(vec![
            "tag_1".to_string(),
            "category_1".to_string(),
            "inactive".to_string(),
            "unverified".to_string()
        ])
    );
    assert!(metadata.tag_analysis.is_none());
}

#[test]
fn complex_extended_preferences() {
    let d = synthesize_complex(6);
    let profile = d.profile.unwrap();
    let prefs = profile.preferences.unwrap();
    assert_eq!(prefs.theme, "dark");
    assert_eq!(prefs.language, "ja");
    let extended = prefs.extended.expect("complex preferences are extended");
    assert_eq!(extended.timezone, "Asia/Tokyo");
    assert_eq!(extended.currency, "JPY");
    assert_eq!(extended.date_format, "YYYY-MM-DD");
    assert_eq!(extended.time_format, "24h");
    assert!(extended.accessibility.high_contrast);
    assert!(extended.accessibility.screen_reader);
    assert_eq!(extended.accessibility.font_size, "medium");
    let links = profile.social_links.unwrap();
    assert_eq!(
        links,
        vec![
            "https://twitter.com/complex_user6".to_string(),
            "https://github.com/complex_user6".to_string(),
            "https://linkedin.com/in/complex_user6".to_string(),
            "https://facebook.com/complex_user6".to_string()
        ]
    );
}

#[test]
fn complex_tag_rules() {
    let d = synthesize_complex(30);
    let tags = d.metadata.unwrap().tags.unwrap();
    assert_eq!(
        tags,
        vec![
            "tag_30".to_string(),
            "category_0".to_string(),
            "active".to_string(),
            "verified".to_string()
        ]
    );
    let d = synthesize_complex(35);
    let meta = d.metadata.unwrap();
    assert_eq!(meta.is_verified, Some(true));
    assert_eq!(meta.is_premium, Some(true));
}

#[test]
fn variant_dispatch_matches_named_paths() {
    let simple = synthesize_variant(Variant::Simple, 5);
    assert!(simple.metadata.is_none());
    assert_eq!(simple.name.as_deref(), Some("User 5"));
    let complex = synthesize_variant(Variant::Complex, 5);
    assert!(complex.metadata.is_some());
    assert_eq!(complex.name.as_deref(), Some("Complex User 5"));
}

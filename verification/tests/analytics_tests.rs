use storage_bench::analytics::{process_documents, transform};
use storage_bench::record::{
    Achievement, DocMetadata, DocProfile, Document, Ratio, Statistics,
};
use storage_bench::synth::synthesize_complex;

fn empty_document() -> Document {
    Document {
        id: None,
        name: None,
        email: None,
        age: None,
        profile: None,
        metadata: None,
        created_at: None,
    }
}

fn empty_profile() -> DocProfile {
    DocProfile {
        bio: None,
        avatar_url: None,
        preferences: None,
        social_links: None,
        achievements: None,
        statistics: None,
        total_achievement_points: None,
        bio_analysis: None,
    }
}

fn empty_metadata() -> DocMetadata {
    DocMetadata {
        created_at: None,
        last_login: None,
        login_count: None,
        is_verified: None,
        is_premium: None,
        tags: None,
        tag_analysis: None,
    }
}

fn empty_statistics() -> Statistics {
    Statistics {
        posts_count: None,
        followers_count: None,
        following_count: None,
        likes_received: None,
        comments_made: None,
        engagement_rate: None,
    }
}

fn ratio_value(r: Ratio) -> f64 {
    r.num as f64 / r.den as f64
}

#[test]
fn achievement_points_complex_index_one() {
    let out = transform(synthesize_complex(1));
    let profile = out.profile.expect("profile kept");
    assert_eq!(profile.total_achievement_points, Some(325));
}

#[test]
fn engagement_rate_values() {
    let mut stats = empty_statistics();
    stats.posts_count = Some(105);
    stats.followers_count = Some(520);
    let mut profile = empty_profile();
    profile.statistics = Some(stats);
    let mut doc = empty_document();
    doc.profile = Some(profile);
    let out = transform(doc);
    let rate = out
        .profile
        .unwrap()
        .statistics
        .unwrap()
        .engagement_rate
        .expect("both counts present");
    assert_eq!(rate, Ratio { num: 10500, den: 520 });
    assert!((ratio_value(rate) - 20.1923).abs() < 1e-3);
}

#[test]
fn engagement_rate_zero_followers() {
    let mut stats = empty_statistics();
    stats.posts_count = Some(105);
    stats.followers_count = Some(0);
    let mut profile = empty_profile();
    profile.statistics = Some(stats);
    let mut doc = empty_document();
    doc.profile = Some(profile);
    let out = transform(doc);
    let rate = out
        .profile
        .unwrap()
        .statistics
        .unwrap()
        .engagement_rate
        .unwrap();
    assert_eq!(rate, Ratio { num: 0, den: 1 });
    assert_eq!(ratio_value(rate), 0.0);
}

#[test]
fn engagement_rate_omitted_when_count_absent() {
    let mut stats = empty_statistics();
    stats.posts_count = Some(105);
    let mut profile = empty_profile();
    profile.statistics = Some(stats);
    let mut doc = empty_document();
    doc.profile = Some(profile);
    let out = transform(doc);
    assert!(out
        .profile
        .unwrap()
        .statistics
        .unwrap()
        .engagement_rate
        .is_none());
}

#[test]
fn tag_analysis_values() {
    let mut metadata = empty_metadata();
    metadata.tags = Some(vec![
        "tag_1".to_string(),
        "category_1".to_string(),
        "active".to_string(),
        "verified".to_string(),
    ]);
    let mut doc = empty_document();
    doc.metadata = Some(metadata);
    let out = transform(doc);
    let analysis = out
        .metadata
        .unwrap()
        .tag_analysis
        .expect("tags present");
    assert_eq!(analysis.total_tags, 4);
    assert_eq!(analysis.verified_tags, 1);
    assert_eq!(ratio_value(analysis.verification_rate), 25.0);
}

#[test]
fn tag_analysis_empty_list() {
    let mut metadata = empty_metadata();
    metadata.tags = Some(Vec::new());
    let mut doc = empty_document();
    doc.metadata = Some(metadata);
    let out = transform(doc);
    let analysis = out.metadata.unwrap().tag_analysis.unwrap();
    assert_eq!(analysis.total_tags, 0);
    assert_eq!(analysis.verified_tags, 0);
    assert_eq!(ratio_value(analysis.verification_rate), 0.0);
}

#[test]
fn tag_analysis_omitted_without_tags() {
    let mut doc = empty_document();
    doc.metadata = Some(empty_metadata());
    let out = transform(doc);
    assert!(out.metadata.unwrap().tag_analysis.is_none());
}

#[test]
fn bio_without_periods() {
    let mut profile = empty_profile();
    profile.bio = Some("a bio with no sentence punctuation at all".to_string());
    let mut doc = empty_document();
    doc.profile = Some(profile);
    let out = transform(doc);
    let analysis = out.profile.unwrap().bio_analysis.expect("bio present");
    assert_eq!(analysis.sentence_count, 0);
    assert_eq!(
        analysis.avg_words_per_sentence,
        Ratio { num: 0, den: 1 }
    );
    assert_eq!(ratio_value(analysis.avg_words_per_sentence), 0.0);
}

#[test]
fn bio_counts_exact() {
    let mut profile = empty_profile();
    profile.bio = Some("One two. Three four five.".to_string());
    let mut doc = empty_document();
    doc.profile = Some(profile);
    let out = transform(doc);
    let analysis = out.profile.unwrap().bio_analysis.unwrap();
    assert_eq!(analysis.word_count, 5);
    assert_eq!(analysis.char_count, 25);
    assert_eq!(analysis.sentence_count, 2);
    assert_eq!(ratio_value(analysis.avg_words_per_sentence), 2.5);
}

#[test]
fn bio_unicode_chars_counted_once() {
    let mut profile = empty_profile();
    profile.bio = Some("héllo wörld".to_string());
    let mut doc = empty_document();
    doc.profile = Some(profile);
    let out = transform(doc);
    let analysis = out.profile.unwrap().bio_analysis.unwrap();
    assert_eq!(analysis.char_count, 11);
    assert_eq!(analysis.word_count, 2);
}

#[test]
fn empty_document_transforms_without_failing() {
    let out = transform(empty_document());
    assert!(out.profile.is_none());
    assert!(out.metadata.is_none());
}

#[test]
fn entries_without_points_contribute_zero() {
    let mut profile = empty_profile();
    profile.achievements = Some(vec![
        Achievement {
            id: "a1".to_string(),
            name: "first".to_string(),
            description: "with points".to_string(),
            earned_at: "2024-08-30T08:00:00Z".to_string(),
            points: Some(40),
        },
        Achievement {
            id: "a2".to_string(),
            name: "second".to_string(),
            description: "without points".to_string(),
            earned_at: "2024-08-30T09:00:00Z".to_string(),
            points: None,
        },
    ]);
    let mut doc = empty_document();
    doc.profile = Some(profile);
    let out = transform(doc);
    assert_eq!(out.profile.unwrap().total_achievement_points, Some(40));
}

#[test]
fn transform_preserves_original_fields() {
    let input = synthesize_complex(4);
    let kept = input.duplicate();
    let out = transform(input);
    assert_eq!(out.id, kept.id);
    assert_eq!(out.name, kept.name);
    assert_eq!(out.email, kept.email);
    assert_eq!(out.age, kept.age);
    assert_eq!(out.created_at, kept.created_at);
    let out_profile = out.profile.unwrap();
    let kept_profile = kept.profile.unwrap();
    assert_eq!(out_profile.bio, kept_profile.bio);
    assert_eq!(out_profile.preferences, kept_profile.preferences);
    assert_eq!(out_profile.social_links, kept_profile.social_links);
    assert_eq!(out_profile.achievements, kept_profile.achievements);
    let out_meta = out.metadata.unwrap();
    let kept_meta = kept.metadata.unwrap();
    assert_eq!(out_meta.tags, kept_meta.tags);
    assert_eq!(out_meta.login_count, kept_meta.login_count);
}

#[test]
fn malformed_documents_dropped_and_counted() {
    let inputs = vec![
        Some(synthesize_complex(1)),
        None,
        Some(synthesize_complex(2)),
        None,
    ];
    let outcome = process_documents(inputs);
    assert_eq!(outcome.processed.len(), 2);
    assert_eq!(outcome.dropped, 2);
    assert_eq!(
        outcome.processed[0].name.as_deref(),
        Some("Complex User 1")
    );
    assert_eq!(
        outcome.processed[1].name.as_deref(),
        Some("Complex User 2")
    );
}

#[test]
fn transform_copy_leaves_input_untouched() {
    let input = synthesize_complex(3);
    let before = input.duplicate();
    let out = storage_bench::analytics::transform_copy(&input);
    assert_eq!(input, before);
    assert_eq!(
        out.profile.as_ref().unwrap().total_achievement_points,
        Some((100 + 30) + (200 + 45))
    );
    assert!(out
        .profile
        .unwrap()
        .statistics
        .unwrap()
        .engagement_rate
        .is_some());
}

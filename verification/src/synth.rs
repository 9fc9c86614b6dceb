//! Deterministic record synthesis. Every field except the identifier is a
//! pure function of the 1-based sequence index, so repeated generation is
//! reproducible across runs and across the two representations.

use vstd::prelude::*;

use crate::record::{
    Accessibility, Achievement, DocMetadata, DocPreferences, DocProfile, Document,
    ExtendedPreferences, Preferences, SimpleRecord, Variant,
};
use crate::text::dec_spec;
use crate::text::prefix_num;
use crate::text::template;

verus! {

/// Relies on `uuid::Uuid::new_v4` and the hyphenated `Display` form of
/// `uuid::Uuid`: a fresh random identifier rendered as 36 characters.
/// The value is random, so nothing is promised beyond its length.
#[verifier::external_body]
fn fresh_token() -> (r: String)
    ensures
        r@.len() == 36,
{
    uuid::Uuid::new_v4().to_string()
}

// Deterministic field rules, shared by both variants.
pub open spec fn theme_spec(i: u32) -> Seq<char> {
    if i % 2 == 0 {
        "dark"@
    } else {
        "light"@
    }
}

pub open spec fn language_spec(i: u32) -> Seq<char> {
    if i % 3 == 0 {
        "ja"@
    } else if i % 3 == 1 {
        "en"@
    } else {
        "es"@
    }
}

pub open spec fn notifications_spec(i: u32) -> Seq<char> {
    if i % 4 == 0 {
        "true"@
    } else {
        "false"@
    }
}

pub open spec fn age_spec(i: u32) -> u64 {
    (20 + (i % 60)) as u64
}

/// The avatar URL is present exactly for indices divisible by three.
pub open spec fn has_avatar(i: u32) -> bool {
    i % 3 == 0
}

pub open spec fn avatar_url_spec(i: u32) -> Seq<char> {
    "https://example.com/avatar"@ + dec_spec(i as nat) + ".jpg"@
}

pub open spec fn avatar_matches(a: Option<String>, i: u32) -> bool {
    match a {
        Some(u) => has_avatar(i) && u@ == avatar_url_spec(i),
        None => !has_avatar(i),
    }
}

/// The fixed creation timestamp written into generated records.
pub open spec fn created_at_spec() -> Seq<char> {
    "2024-08-30T08:00:00Z"@
}

pub open spec fn last_login_spec() -> Seq<char> {
    "2024-08-30T21:00:00Z"@
}

pub open spec fn opt_str_is(o: Option<String>, v: Seq<char>) -> bool {
    match o {
        Some(s) => s@ == v,
        None => false,
    }
}

// Simple-variant text fields.
pub open spec fn simple_name_spec(i: u32) -> Seq<char> {
    "User "@ + dec_spec(i as nat)
}

pub open spec fn simple_email_spec(i: u32) -> Seq<char> {
    "user"@ + dec_spec(i as nat) + "@example.com"@
}

pub open spec fn simple_bio_spec(i: u32) -> Seq<char> {
    "Bio for user "@ + dec_spec(i as nat)
}

pub open spec fn twitter_link_spec(i: u32) -> Seq<char> {
    "https://twitter.com/user"@ + dec_spec(i as nat)
}

pub open spec fn github_link_spec(i: u32) -> Seq<char> {
    "https://github.com/user"@ + dec_spec(i as nat)
}

// Complex-variant text fields.
pub open spec fn complex_name_spec(i: u32) -> Seq<char> {
    "Complex User "@ + dec_spec(i as nat)
}

pub open spec fn complex_email_spec(i: u32) -> Seq<char> {
    "complex.user"@ + dec_spec(i as nat) + "@example.com"@
}

pub open spec fn complex_bio_spec(i: u32) -> Seq<char> {
    "Complex bio for user "@ + dec_spec(i as nat)
        + " with very long description that includes multiple sentences and various details about their background, interests, and activities."@
}

pub open spec fn complex_twitter_spec(i: u32) -> Seq<char> {
    "https://twitter.com/complex_user"@ + dec_spec(i as nat)
}

pub open spec fn complex_github_spec(i: u32) -> Seq<char> {
    "https://github.com/complex_user"@ + dec_spec(i as nat)
}

pub open spec fn complex_linkedin_spec(i: u32) -> Seq<char> {
    "https://linkedin.com/in/complex_user"@ + dec_spec(i as nat)
}

pub open spec fn complex_facebook_spec(i: u32) -> Seq<char> {
    "https://facebook.com/complex_user"@ + dec_spec(i as nat)
}

// Achievements: exactly two entries with index-derived point values.
pub open spec fn points_one_spec(i: u32) -> u64 {
    (100 + 10 * (i as int)) as u64
}

pub open spec fn points_two_spec(i: u32) -> u64 {
    (200 + 15 * (i as int)) as u64
}

pub open spec fn achievement_one_matches(a: Achievement, i: u32) -> bool {
    &&& a.id@ == "achievement_"@ + dec_spec(i as nat)
    &&& a.name@ == "Achievement "@ + dec_spec(i as nat)
    &&& a.description@ == "Description for achievement "@ + dec_spec(i as nat)
    &&& a.earned_at@ == created_at_spec()
    &&& a.points == Some(points_one_spec(i))
}

pub open spec fn achievement_two_matches(a: Achievement, i: u32) -> bool {
    &&& a.id@ == "achievement_"@ + dec_spec(i as nat) + "_2"@
    &&& a.name@ == "Special Achievement "@ + dec_spec(i as nat)
    &&& a.description@ == "Special description for achievement "@ + dec_spec(i as nat)
    &&& a.earned_at@ == "2024-08-30T09:00:00Z"@
    &&& a.points == Some(points_two_spec(i))
}

// Statistics counts.
pub open spec fn posts_spec(i: u32) -> u64 {
    (100 + 5 * (i as int)) as u64
}

pub open spec fn followers_spec(i: u32) -> u64 {
    (500 + 20 * (i as int)) as u64
}

pub open spec fn following_spec(i: u32) -> u64 {
    (200 + 10 * (i as int)) as u64
}

pub open spec fn likes_spec(i: u32) -> u64 {
    (1000 + 50 * (i as int)) as u64
}

pub open spec fn comments_spec(i: u32) -> u64 {
    (50 + 3 * (i as int)) as u64
}

pub open spec fn statistics_match(s: crate::record::Statistics, i: u32) -> bool {
    &&& s.posts_count == Some(posts_spec(i))
    &&& s.followers_count == Some(followers_spec(i))
    &&& s.following_count == Some(following_spec(i))
    &&& s.likes_received == Some(likes_spec(i))
    &&& s.comments_made == Some(comments_spec(i))
    &&& s.engagement_rate is None
}

// Metadata.
pub open spec fn login_count_spec(i: u32) -> u64 {
    (100 + (i as int)) as u64
}

pub open spec fn tag_name_spec(i: u32) -> Seq<char> {
    "tag_"@ + dec_spec(i as nat)
}

pub open spec fn category_tag_spec(i: u32) -> Seq<char> {
    "category_"@ + dec_spec((i % 10) as nat)
}

pub open spec fn activity_tag_spec(i: u32) -> Seq<char> {
    if i % 2 == 0 {
        "active"@
    } else {
        "inactive"@
    }
}

pub open spec fn verified_tag_spec(i: u32) -> Seq<char> {
    if i % 3 == 0 {
        "verified"@
    } else {
        "unverified"@
    }
}

pub open spec fn tags_match(tags: Seq<String>, i: u32) -> bool {
    &&& tags.len() == 4
    &&& tags[0]@ == tag_name_spec(i)
    &&& tags[1]@ == category_tag_spec(i)
    &&& tags[2]@ == activity_tag_spec(i)
    &&& tags[3]@ == verified_tag_spec(i)
}

pub open spec fn metadata_matches(m: DocMetadata, i: u32) -> bool {
    &&& opt_str_is(m.created_at, created_at_spec())
    &&& opt_str_is(m.last_login, last_login_spec())
    &&& m.login_count == Some(login_count_spec(i))
    &&& m.is_verified == Some(i % 5 == 0)
    &&& m.is_premium == Some(i % 7 == 0)
    &&& match m.tags {
        Some(t) => tags_match(t@, i),
        None => false,
    }
    &&& m.tag_analysis is None
}

pub open spec fn extended_matches(e: ExtendedPreferences, i: u32) -> bool {
    &&& e.timezone@ == "Asia/Tokyo"@
    &&& e.currency@ == "JPY"@
    &&& e.date_format@ == "YYYY-MM-DD"@
    &&& e.time_format@ == "24h"@
    &&& e.accessibility.high_contrast == (i % 2 == 0)
    &&& e.accessibility.screen_reader == (i % 3 == 0)
    &&& e.accessibility.font_size@ == "medium"@
}

pub open spec fn simple_prefs_match(p: DocPreferences, i: u32) -> bool {
    &&& p.theme@ == theme_spec(i)
    &&& p.language@ == language_spec(i)
    &&& p.notifications@ == notifications_spec(i)
    &&& p.extended is None
}

pub open spec fn complex_prefs_match(p: DocPreferences, i: u32) -> bool {
    &&& p.theme@ == theme_spec(i)
    &&& p.language@ == language_spec(i)
    &&& p.notifications@ == notifications_spec(i)
    &&& match p.extended {
        Some(e) => extended_matches(e, i),
        None => false,
    }
}

/// Everything the flat representation of a simple record must hold for
/// index `i`: each deterministic field pinned to its rule.
pub open spec fn simple_matches(r: SimpleRecord, i: u32) -> bool {
    &&& r.name@ == simple_name_spec(i)
    &&& r.email@ == simple_email_spec(i)
    &&& r.age == age_spec(i)
    &&& r.bio@ == simple_bio_spec(i)
    &&& avatar_matches(r.avatar_url, i)
    &&& r.preferences.theme@ == theme_spec(i)
    &&& r.preferences.language@ == language_spec(i)
    &&& r.preferences.notifications@ == notifications_spec(i)
    &&& r.social_links@.len() == 2
    &&& r.social_links@[0]@ == twitter_link_spec(i)
    &&& r.social_links@[1]@ == github_link_spec(i)
    &&& r.created_at@ == created_at_spec()
}

pub open spec fn simple_profile_matches(p: DocProfile, i: u32) -> bool {
    &&& opt_str_is(p.bio, simple_bio_spec(i))
    &&& avatar_matches(p.avatar_url, i)
    &&& match p.preferences {
        Some(q) => simple_prefs_match(q, i),
        None => false,
    }
    &&& match p.social_links {
        Some(l) => l@.len() == 2 && l@[0]@ == twitter_link_spec(i) && l@[1]@ == github_link_spec(
            i,
        ),
        None => false,
    }
    &&& p.achievements is None
    &&& p.statistics is None
    &&& p.total_achievement_points is None
    &&& p.bio_analysis is None
}

/// Everything the document representation of a simple record must hold.
pub open spec fn simple_doc_matches(d: Document, i: u32) -> bool {
    &&& match d.id {
        Some(s) => s@.len() == 36,
        None => false,
    }
    &&& opt_str_is(d.name, simple_name_spec(i))
    &&& opt_str_is(d.email, simple_email_spec(i))
    &&& d.age == Some(age_spec(i))
    &&& match d.profile {
        Some(p) => simple_profile_matches(p, i),
        None => false,
    }
    &&& d.metadata is None
    &&& opt_str_is(d.created_at, created_at_spec())
}

pub open spec fn complex_profile_matches(p: DocProfile, i: u32) -> bool {
    &&& opt_str_is(p.bio, complex_bio_spec(i))
    &&& avatar_matches(p.avatar_url, i)
    &&& match p.preferences {
        Some(q) => complex_prefs_match(q, i),
        None => false,
    }
    &&& match p.social_links {
        Some(l) => {
            &&& l@.len() == 4
            &&& l@[0]@ == complex_twitter_spec(i)
            &&& l@[1]@ == complex_github_spec(i)
            &&& l@[2]@ == complex_linkedin_spec(i)
            &&& l@[3]@ == complex_facebook_spec(i)
        },
        None => false,
    }
    &&& match p.achievements {
        Some(a) => a@.len() == 2 && achievement_one_matches(a@[0], i) && achievement_two_matches(
            a@[1],
            i,
        ),
        None => false,
    }
    &&& match p.statistics {
        Some(s) => statistics_match(s, i),
        None => false,
    }
    &&& p.total_achievement_points is None
    &&& p.bio_analysis is None
}

/// Everything the document representation of a complex record must hold.
pub open spec fn complex_matches(d: Document, i: u32) -> bool {
    &&& match d.id {
        Some(s) => s@.len() == 36,
        None => false,
    }
    &&& opt_str_is(d.name, complex_name_spec(i))
    &&& opt_str_is(d.email, complex_email_spec(i))
    &&& d.age == Some(age_spec(i))
    &&& match d.profile {
        Some(p) => complex_profile_matches(p, i),
        None => false,
    }
    &&& match d.metadata {
        Some(m) => metadata_matches(m, i),
        None => false,
    }
    &&& opt_str_is(d.created_at, created_at_spec())
}

// Content equality: the same text and values field for field, ignoring the
// identifier and the record-level creation timestamp, which are the only
// fields excluded from reproducibility.
pub open spec fn opt_str_view_eq(a: Option<String>, b: Option<String>) -> bool {
    match (a, b) {
        (Some(x), Some(y)) => x@ == y@,
        (None, None) => true,
        _ => false,
    }
}

pub open spec fn links_view_eq(a: Seq<String>, b: Seq<String>) -> bool {
    a.len() == b.len() && forall|k: int| 0 <= k < a.len() ==> a[k]@ == #[trigger] b[k]@
}

pub open spec fn achievement_view_eq(a: Achievement, b: Achievement) -> bool {
    &&& a.id@ == b.id@
    &&& a.name@ == b.name@
    &&& a.description@ == b.description@
    &&& a.earned_at@ == b.earned_at@
    &&& a.points == b.points
}

pub open spec fn extended_view_eq(a: ExtendedPreferences, b: ExtendedPreferences) -> bool {
    &&& a.timezone@ == b.timezone@
    &&& a.currency@ == b.currency@
    &&& a.date_format@ == b.date_format@
    &&& a.time_format@ == b.time_format@
    &&& a.accessibility.high_contrast == b.accessibility.high_contrast
    &&& a.accessibility.screen_reader == b.accessibility.screen_reader
    &&& a.accessibility.font_size@ == b.accessibility.font_size@
}

pub open spec fn doc_prefs_view_eq(a: DocPreferences, b: DocPreferences) -> bool {
    &&& a.theme@ == b.theme@
    &&& a.language@ == b.language@
    &&& a.notifications@ == b.notifications@
    &&& match (a.extended, b.extended) {
        (Some(x), Some(y)) => extended_view_eq(x, y),
        (None, None) => true,
        _ => false,
    }
}

/// Two flat records carry the same content: every field agrees except the
/// identifier and the creation timestamp.
pub open spec fn simple_content_eq(a: SimpleRecord, b: SimpleRecord) -> bool {
    &&& a.name@ == b.name@
    &&& a.email@ == b.email@
    &&& a.age == b.age
    &&& a.bio@ == b.bio@
    &&& opt_str_view_eq(a.avatar_url, b.avatar_url)
    &&& a.preferences.theme@ == b.preferences.theme@
    &&& a.preferences.language@ == b.preferences.language@
    &&& a.preferences.notifications@ == b.preferences.notifications@
    &&& links_view_eq(a.social_links@, b.social_links@)
}

pub open spec fn profile_content_eq(a: DocProfile, b: DocProfile) -> bool {
    &&& opt_str_view_eq(a.bio, b.bio)
    &&& opt_str_view_eq(a.avatar_url, b.avatar_url)
    &&& match (a.preferences, b.preferences) {
        (Some(x), Some(y)) => doc_prefs_view_eq(x, y),
        (None, None) => true,
        _ => false,
    }
    &&& match (a.social_links, b.social_links) {
        (Some(x), Some(y)) => links_view_eq(x@, y@),
        (None, None) => true,
        _ => false,
    }
    &&& match (a.achievements, b.achievements) {
        (Some(x), Some(y)) => x@.len() == y@.len() && forall|k: int|
            0 <= k < x@.len() ==> achievement_view_eq(x@[k], #[trigger] y@[k]),
        (None, None) => true,
        _ => false,
    }
    &&& a.statistics == b.statistics
    &&& a.total_achievement_points == b.total_achievement_points
    &&& a.bio_analysis == b.bio_analysis
}

pub open spec fn metadata_content_eq(a: DocMetadata, b: DocMetadata) -> bool {
    &&& opt_str_view_eq(a.created_at, b.created_at)
    &&& opt_str_view_eq(a.last_login, b.last_login)
    &&& a.login_count == b.login_count
    &&& a.is_verified == b.is_verified
    &&& a.is_premium == b.is_premium
    &&& match (a.tags, b.tags) {
        (Some(x), Some(y)) => links_view_eq(x@, y@),
        (None, None) => true,
        _ => false,
    }
    &&& a.tag_analysis == b.tag_analysis
}

/// Two documents carry the same content: every field agrees except the
/// identifier and the record-level creation timestamp.
pub open spec fn doc_content_eq(a: Document, b: Document) -> bool {
    &&& opt_str_view_eq(a.name, b.name)
    &&& opt_str_view_eq(a.email, b.email)
    &&& a.age == b.age
    &&& match (a.profile, b.profile) {
        (Some(x), Some(y)) => profile_content_eq(x, y),
        (None, None) => true,
        _ => false,
    }
    &&& match (a.metadata, b.metadata) {
        (Some(x), Some(y)) => metadata_content_eq(x, y),
        (None, None) => true,
        _ => false,
    }
}

/// Synthesis is reproducible: any two flat records generated for the same
/// index agree on every field except the identifier and the timestamp.
pub proof fn lemma_flat_synthesis_deterministic(a: SimpleRecord, b: SimpleRecord, i: u32)
    requires
        simple_matches(a, i),
        simple_matches(b, i),
    ensures
        simple_content_eq(a, b),
{
}

/// Synthesis is reproducible: any two simple documents generated for the
/// same index agree on every field except the identifier and the timestamp.
pub proof fn lemma_document_synthesis_deterministic(a: Document, b: Document, i: u32)
    requires
        simple_doc_matches(a, i),
        simple_doc_matches(b, i),
    ensures
        doc_content_eq(a, b),
{
}

/// Synthesis is reproducible: any two complex documents generated for the
/// same index agree on every field except the identifier and the timestamp.
pub proof fn lemma_complex_synthesis_deterministic(a: Document, b: Document, i: u32)
    requires
        complex_matches(a, i),
        complex_matches(b, i),
    ensures
        doc_content_eq(a, b),
{
}

/// The two representations of the simple record agree on every shared field
/// value: a flat record and a simple document generated for the same index
/// carry semantically identical content.
pub proof fn lemma_representations_agree(r: SimpleRecord, d: Document, i: u32)
    requires
        simple_matches(r, i),
        simple_doc_matches(d, i),
    ensures
        opt_str_is(d.name, r.name@),
        opt_str_is(d.email, r.email@),
        d.age == Some(r.age),
        match d.profile {
            Some(p) => {
                &&& opt_str_is(p.bio, r.bio@)
                &&& opt_str_view_eq(p.avatar_url, r.avatar_url)
                &&& match p.preferences {
                    Some(q) => q.theme@ == r.preferences.theme@ && q.language@
                        == r.preferences.language@ && q.notifications@
                        == r.preferences.notifications@,
                    None => false,
                }
                &&& match p.social_links {
                    Some(l) => links_view_eq(l@, r.social_links@),
                    None => false,
                }
            },
            None => false,
        },
{
}

fn theme_string(i: u32) -> (r: String)
    ensures
        r@ == theme_spec(i),
{
    if i % 2 == 0 {
        String::from_str("dark")
    } else {
        String::from_str("light")
    }
}

fn language_string(i: u32) -> (r: String)
    ensures
        r@ == language_spec(i),
{
    if i % 3 == 0 {
        String::from_str("ja")
    } else if i % 3 == 1 {
        String::from_str("en")
    } else {
        String::from_str("es")
    }
}

fn notifications_string(i: u32) -> (r: String)
    ensures
        r@ == notifications_spec(i),
{
    if i % 4 == 0 {
        String::from_str("true")
    } else {
        String::from_str("false")
    }
}

fn avatar_option(i: u32) -> (r: Option<String>)
    ensures
        avatar_matches(r, i),
{
    if i % 3 == 0 {
        Some(template("https://example.com/avatar", i, ".jpg"))
    } else {
        None
    }
}

/// Synthesizes the flat representation of the simple record for index `i`.
/// Every field except the identifier is deterministic in `i`.
pub fn synthesize_flat(i: u32) -> (r: SimpleRecord)
    ensures
        simple_matches(r, i),
        r.id@.len() == 36,
{
    let mut links: Vec<String> = Vec::new();
    links.push(prefix_num("https://twitter.com/user", i));
    links.push(prefix_num("https://github.com/user", i));
    SimpleRecord {
        id: fresh_token(),
        name: prefix_num("User ", i),
        email: template("user", i, "@example.com"),
        age: (20 + (i % 60)) as u64,
        bio: prefix_num("Bio for user ", i),
        avatar_url: avatar_option(i),
        preferences: Preferences {
            theme: theme_string(i),
            language: language_string(i),
            notifications: notifications_string(i),
        },
        social_links: links,
        created_at: String::from_str("2024-08-30T08:00:00Z"),
    }
}

/// Synthesizes the document representation of the simple record for index
/// `i`: the same field values as the flat representation, wrapped one level
/// deeper under `profile`.
pub fn synthesize_document(i: u32) -> (r: Document)
    ensures
        simple_doc_matches(r, i),
{
    let mut links: Vec<String> = Vec::new();
    links.push(prefix_num("https://twitter.com/user", i));
    links.push(prefix_num("https://github.com/user", i));
    Document {
        id: Some(fresh_token()),
        name: Some(prefix_num("User ", i)),
        email: Some(template("user", i, "@example.com")),
        age: Some((20 + (i % 60)) as u64),
        profile: Some(
            DocProfile {
                bio: Some(prefix_num("Bio for user ", i)),
                avatar_url: avatar_option(i),
                preferences: Some(
                    DocPreferences {
                        theme: theme_string(i),
                        language: language_string(i),
                        notifications: notifications_string(i),
                        extended: None,
                    },
                ),
                social_links: Some(links),
                achievements: None,
                statistics: None,
                total_achievement_points: None,
                bio_analysis: None,
            },
        ),
        metadata: None,
        created_at: Some(String::from_str("2024-08-30T08:00:00Z")),
    }
}

/// Synthesizes the complex record for index `i`, in document form: extended
/// preferences, two achievements, a statistics block and a metadata block,
/// all deterministic in `i`. The derived-metric fields are absent.
pub fn synthesize_complex(i: u32) -> (r: Document)
    ensures
        complex_matches(r, i),
{
    let mut links: Vec<String> = Vec::new();
    links.push(prefix_num("https://twitter.com/complex_user", i));
    links.push(prefix_num("https://github.com/complex_user", i));
    links.push(prefix_num("https://linkedin.com/in/complex_user", i));
    links.push(prefix_num("https://facebook.com/complex_user", i));

    let mut achievements: Vec<Achievement> = Vec::new();
    achievements.push(
        Achievement {
            id: prefix_num("achievement_", i),
            name: prefix_num("Achievement ", i),
            description: prefix_num("Description for achievement ", i),
            earned_at: String::from_str("2024-08-30T08:00:00Z"),
            points: Some(100 + 10 * (i as u64)),
        },
    );
    achievements.push(
        Achievement {
            id: template("achievement_", i, "_2"),
            name: prefix_num("Special Achievement ", i),
            description: prefix_num("Special description for achievement ", i),
            earned_at: String::from_str("2024-08-30T09:00:00Z"),
            points: Some(200 + 15 * (i as u64)),
        },
    );

    let mut tags: Vec<String> = Vec::new();
    tags.push(prefix_num("tag_", i));
    tags.push(prefix_num("category_", i % 10));
    tags.push(
        if i % 2 == 0 {
            String::from_str("active")
        } else {
            String::from_str("inactive")
        },
    );
    tags.push(
        if i % 3 == 0 {
            String::from_str("verified")
        } else {
            String::from_str("unverified")
        },
    );

    Document {
        id: Some(fresh_token()),
        name: Some(prefix_num("Complex User ", i)),
        email: Some(template("complex.user", i, "@example.com")),
        age: Some((20 + (i % 60)) as u64),
        profile: Some(
            DocProfile {
                bio: Some(
                    template(
                        "Complex bio for user ",
                        i,
                        " with very long description that includes multiple sentences and various details about their background, interests, and activities.",
                    ),
                ),
                avatar_url: avatar_option(i),
                preferences: Some(
                    DocPreferences {
                        theme: theme_string(i),
                        language: language_string(i),
                        notifications: notifications_string(i),
                        extended: Some(
                            ExtendedPreferences {
                                timezone: String::from_str("Asia/Tokyo"),
                                currency: String::from_str("JPY"),
                                date_format: String::from_str("YYYY-MM-DD"),
                                time_format: String::from_str("24h"),
                                accessibility: Accessibility {
                                    high_contrast: i % 2 == 0,
                                    screen_reader: i % 3 == 0,
                                    font_size: String::from_str("medium"),
                                },
                            },
                        ),
                    },
                ),
                social_links: Some(links),
                achievements: Some(achievements),
                statistics: Some(
                    crate::record::Statistics {
                        posts_count: Some(100 + 5 * (i as u64)),
                        followers_count: Some(500 + 20 * (i as u64)),
                        following_count: Some(200 + 10 * (i as u64)),
                        likes_received: Some(1000 + 50 * (i as u64)),
                        comments_made: Some(50 + 3 * (i as u64)),
                        engagement_rate: None,
                    },
                ),
                total_achievement_points: None,
                bio_analysis: None,
            },
        ),
        metadata: Some(
            DocMetadata {
                created_at: Some(String::from_str("2024-08-30T08:00:00Z")),
                last_login: Some(String::from_str("2024-08-30T21:00:00Z")),
                login_count: Some(100 + (i as u64)),
                is_verified: Some(i % 5 == 0),
                is_premium: Some(i % 7 == 0),
                tags: Some(tags),
                tag_analysis: None,
            },
        ),
        created_at: Some(String::from_str("2024-08-30T08:00:00Z")),
    }
}

/// Synthesizes the document representation of the record for index `i` in
/// the requested variant: the simple schema or the complex superset.
pub fn synthesize_variant(variant: Variant, i: u32) -> (r: Document)
    ensures
        variant == Variant::Simple ==> simple_doc_matches(r, i),
        variant == Variant::Complex ==> complex_matches(r, i),
{
    match variant {
        Variant::Simple => synthesize_document(i),
        Variant::Complex => synthesize_complex(i),
    }
}

} // verus!

//! The record model: flat records (one field per attribute) and nested
//! documents (optional substructure at every level), together with the
//! derived-metric blocks that the analytics transform attaches.

use vstd::prelude::*;

verus! {

/// The two storage layouts a record can be kept in.
#[derive(Clone, Copy, PartialEq, Eq, Structural, Debug)]
pub enum Representation {
    /// Each semantic attribute in its own field or column.
    Flat,
    /// The whole record serialized as one opaque blob.
    Document,
}

/// Which optional substructures a synthesized record carries.
#[derive(Clone, Copy, PartialEq, Eq, Structural, Debug)]
pub enum Variant {
    Simple,
    Complex,
}

/// An exact non-negative rational, kept as numerator and denominator so that
/// derived rates need no floating point. The denominator is at least 1.
#[derive(Clone, Copy, PartialEq, Eq, Structural, Debug)]
pub struct Ratio {
    pub num: u128,
    pub den: u128,
}

impl Ratio {
    pub open spec fn wf(self) -> bool {
        self.den >= 1
    }

    /// The exact value zero.
    pub open spec fn zero_spec() -> Ratio {
        Ratio { num: 0, den: 1 }
    }

    pub fn zero() -> (r: Ratio)
        ensures
            r == Ratio::zero_spec(),
            r.wf(),
    {
        Ratio { num: 0, den: 1 }
    }

    pub open spec fn is_zero(self) -> bool {
        self.num == 0
    }
}

/// The three fixed preference keys every record carries.
#[derive(PartialEq, Debug)]
pub struct Preferences {
    pub theme: String,
    pub language: String,
    pub notifications: String,
}

/// A record in the flat representation: one field per attribute, with the
/// preference map and link list kept as plain typed values.
#[derive(PartialEq, Debug)]
pub struct SimpleRecord {
    pub id: String,
    pub name: String,
    pub email: String,
    pub age: u64,
    pub bio: String,
    pub avatar_url: Option<String>,
    pub preferences: Preferences,
    pub social_links: Vec<String>,
    pub created_at: String,
}

/// Nested accessibility flags inside the extended preferences.
#[derive(PartialEq, Debug)]
pub struct Accessibility {
    pub high_contrast: bool,
    pub screen_reader: bool,
    pub font_size: String,
}

/// The extra preference keys only complex records carry.
#[derive(PartialEq, Debug)]
pub struct ExtendedPreferences {
    pub timezone: String,
    pub currency: String,
    pub date_format: String,
    pub time_format: String,
    pub accessibility: Accessibility,
}

/// Preferences as they appear inside a nested document.
#[derive(PartialEq, Debug)]
pub struct DocPreferences {
    pub theme: String,
    pub language: String,
    pub notifications: String,
    pub extended: Option<ExtendedPreferences>,
}

/// One achievement entry. `points` is optional: an entry without it
/// contributes nothing to the aggregated total.
#[derive(PartialEq, Debug)]
pub struct Achievement {
    pub id: String,
    pub name: String,
    pub description: String,
    pub earned_at: String,
    pub points: Option<u64>,
}

/// The statistics block. Every count is optional; `engagement_rate` is a
/// derived field, absent in generated input.
#[derive(Clone, Copy, PartialEq, Debug)]
pub struct Statistics {
    pub posts_count: Option<u64>,
    pub followers_count: Option<u64>,
    pub following_count: Option<u64>,
    pub likes_received: Option<u64>,
    pub comments_made: Option<u64>,
    pub engagement_rate: Option<Ratio>,
}

/// Derived tag metrics.
#[derive(Clone, Copy, PartialEq, Debug)]
pub struct TagAnalysis {
    pub total_tags: u64,
    pub verified_tags: u64,
    pub verification_rate: Ratio,
}

/// Derived bio text metrics.
#[derive(Clone, Copy, PartialEq, Debug)]
pub struct BioAnalysis {
    pub word_count: u64,
    pub char_count: u64,
    pub sentence_count: u64,
    pub avg_words_per_sentence: Ratio,
}

/// The `profile` level of a nested document. `total_achievement_points` and
/// `bio_analysis` are derived fields, absent in generated input.
#[derive(PartialEq, Debug)]
pub struct DocProfile {
    pub bio: Option<String>,
    pub avatar_url: Option<String>,
    pub preferences: Option<DocPreferences>,
    pub social_links: Option<Vec<String>>,
    pub achievements: Option<Vec<Achievement>>,
    pub statistics: Option<Statistics>,
    pub total_achievement_points: Option<u64>,
    pub bio_analysis: Option<BioAnalysis>,
}

/// The `metadata` level of a nested document. `tag_analysis` is a derived
/// field, absent in generated input.
#[derive(PartialEq, Debug)]
pub struct DocMetadata {
    pub created_at: Option<String>,
    pub last_login: Option<String>,
    pub login_count: Option<u64>,
    pub is_verified: Option<bool>,
    pub is_premium: Option<bool>,
    pub tags: Option<Vec<String>>,
    pub tag_analysis: Option<TagAnalysis>,
}

/// A nested document. Every substructure is optional: the analytics
/// transform skips a derived block when its input is absent, and never fails
/// on a partial document.
#[derive(PartialEq, Debug)]
pub struct Document {
    pub id: Option<String>,
    pub name: Option<String>,
    pub email: Option<String>,
    pub age: Option<u64>,
    pub profile: Option<DocProfile>,
    pub metadata: Option<DocMetadata>,
    pub created_at: Option<String>,
}

/// Two string lists hold the same text, element for element.
pub open spec fn links_equiv(a: Seq<String>, b: Seq<String>) -> bool {
    a.len() == b.len() && forall|k: int| 0 <= k < a.len() ==> a[k] == #[trigger] b[k]
}

pub open spec fn opt_links_equiv(a: Option<Vec<String>>, b: Option<Vec<String>>) -> bool {
    match (a, b) {
        (Some(x), Some(y)) => links_equiv(x@, y@),
        (None, None) => true,
        _ => false,
    }
}

pub open spec fn achievements_equiv(a: Seq<Achievement>, b: Seq<Achievement>) -> bool {
    a.len() == b.len() && forall|k: int| 0 <= k < a.len() ==> a[k] == #[trigger] b[k]
}

pub open spec fn opt_achievements_equiv(
    a: Option<Vec<Achievement>>,
    b: Option<Vec<Achievement>>,
) -> bool {
    match (a, b) {
        (Some(x), Some(y)) => achievements_equiv(x@, y@),
        (None, None) => true,
        _ => false,
    }
}

/// Two profiles hold the same values. List-valued fields are compared by
/// their contents; everything else by value.
pub open spec fn profile_equiv(a: DocProfile, b: DocProfile) -> bool {
    &&& a.bio == b.bio
    &&& a.avatar_url == b.avatar_url
    &&& a.preferences == b.preferences
    &&& opt_links_equiv(a.social_links, b.social_links)
    &&& opt_achievements_equiv(a.achievements, b.achievements)
    &&& a.statistics == b.statistics
    &&& a.total_achievement_points == b.total_achievement_points
    &&& a.bio_analysis == b.bio_analysis
}

pub open spec fn metadata_equiv(a: DocMetadata, b: DocMetadata) -> bool {
    &&& a.created_at == b.created_at
    &&& a.last_login == b.last_login
    &&& a.login_count == b.login_count
    &&& a.is_verified == b.is_verified
    &&& a.is_premium == b.is_premium
    &&& opt_links_equiv(a.tags, b.tags)
    &&& a.tag_analysis == b.tag_analysis
}

/// Two documents hold the same values in every field.
pub open spec fn document_equiv(a: Document, b: Document) -> bool {
    &&& a.id == b.id
    &&& a.name == b.name
    &&& a.email == b.email
    &&& a.age == b.age
    &&& a.created_at == b.created_at
    &&& match (a.profile, b.profile) {
        (Some(x), Some(y)) => profile_equiv(x, y),
        (None, None) => true,
        _ => false,
    }
    &&& match (a.metadata, b.metadata) {
        (Some(x), Some(y)) => metadata_equiv(x, y),
        (None, None) => true,
        _ => false,
    }
}

pub open spec fn opt_document_equiv(a: Option<Document>, b: Option<Document>) -> bool {
    match (a, b) {
        (Some(x), Some(y)) => document_equiv(x, y),
        (None, None) => true,
        _ => false,
    }
}

/// Two flat records hold the same values in every field.
pub open spec fn simple_record_equiv(a: SimpleRecord, b: SimpleRecord) -> bool {
    &&& a.id == b.id
    &&& a.name == b.name
    &&& a.email == b.email
    &&& a.age == b.age
    &&& a.bio == b.bio
    &&& a.avatar_url == b.avatar_url
    &&& a.preferences == b.preferences
    &&& links_equiv(a.social_links@, b.social_links@)
    &&& a.created_at == b.created_at
}

fn copy_opt_string(s: &Option<String>) -> (r: Option<String>)
    ensures
        r == *s,
{
    match s {
        Some(x) => Some(x.clone()),
        None => None,
    }
}

fn copy_links(v: &Vec<String>) -> (r: Vec<String>)
    ensures
        links_equiv(r@, v@),
{
    let mut out: Vec<String> = Vec::new();
    let mut k: usize = 0;
    while k < v.len()
        invariant
            k <= v@.len(),
            out@.len() == k,
            forall|j: int| 0 <= j < k ==> out@[j] == #[trigger] v@[j],
        decreases v@.len() - k,
    {
        out.push(v[k].clone());
        k += 1;
    }
    out
}

fn copy_achievement(a: &Achievement) -> (r: Achievement)
    ensures
        r == *a,
{
    Achievement {
        id: a.id.clone(),
        name: a.name.clone(),
        description: a.description.clone(),
        earned_at: a.earned_at.clone(),
        points: a.points,
    }
}

fn copy_achievements(v: &Vec<Achievement>) -> (r: Vec<Achievement>)
    ensures
        achievements_equiv(r@, v@),
{
    let mut out: Vec<Achievement> = Vec::new();
    let mut k: usize = 0;
    while k < v.len()
        invariant
            k <= v@.len(),
            out@.len() == k,
            forall|j: int| 0 <= j < k ==> out@[j] == #[trigger] v@[j],
        decreases v@.len() - k,
    {
        out.push(copy_achievement(&v[k]));
        k += 1;
    }
    out
}

fn copy_preferences(p: &DocPreferences) -> (r: DocPreferences)
    ensures
        r == *p,
{
    DocPreferences {
        theme: p.theme.clone(),
        language: p.language.clone(),
        notifications: p.notifications.clone(),
        extended: match &p.extended {
            Some(e) => Some(
                ExtendedPreferences {
                    timezone: e.timezone.clone(),
                    currency: e.currency.clone(),
                    date_format: e.date_format.clone(),
                    time_format: e.time_format.clone(),
                    accessibility: Accessibility {
                        high_contrast: e.accessibility.high_contrast,
                        screen_reader: e.accessibility.screen_reader,
                        font_size: e.accessibility.font_size.clone(),
                    },
                },
            ),
            None => None,
        },
    }
}

impl DocProfile {
    /// A fresh copy holding the same values.
    pub fn duplicate(&self) -> (r: DocProfile)
        ensures
            profile_equiv(r, *self),
    {
        DocProfile {
            bio: copy_opt_string(&self.bio),
            avatar_url: copy_opt_string(&self.avatar_url),
            preferences: match &self.preferences {
                Some(p) => Some(copy_preferences(p)),
                None => None,
            },
            social_links: match &self.social_links {
                Some(v) => Some(copy_links(v)),
                None => None,
            },
            achievements: match &self.achievements {
                Some(v) => Some(copy_achievements(v)),
                None => None,
            },
            statistics: self.statistics,
            total_achievement_points: self.total_achievement_points,
            bio_analysis: self.bio_analysis,
        }
    }
}

impl DocMetadata {
    /// A fresh copy holding the same values.
    pub fn duplicate(&self) -> (r: DocMetadata)
        ensures
            metadata_equiv(r, *self),
    {
        DocMetadata {
            created_at: copy_opt_string(&self.created_at),
            last_login: copy_opt_string(&self.last_login),
            login_count: self.login_count,
            is_verified: self.is_verified,
            is_premium: self.is_premium,
            tags: match &self.tags {
                Some(v) => Some(copy_links(v)),
                None => None,
            },
            tag_analysis: self.tag_analysis,
        }
    }
}

impl Document {
    /// A fresh copy holding the same values.
    pub fn duplicate(&self) -> (r: Document)
        ensures
            document_equiv(r, *self),
    {
        Document {
            id: copy_opt_string(&self.id),
            name: copy_opt_string(&self.name),
            email: copy_opt_string(&self.email),
            age: self.age,
            profile: match &self.profile {
                Some(p) => Some(p.duplicate()),
                None => None,
            },
            metadata: match &self.metadata {
                Some(m) => Some(m.duplicate()),
                None => None,
            },
            created_at: copy_opt_string(&self.created_at),
        }
    }
}

impl SimpleRecord {
    /// A fresh copy holding the same values.
    pub fn duplicate(&self) -> (r: SimpleRecord)
        ensures
            simple_record_equiv(r, *self),
    {
        SimpleRecord {
            id: self.id.clone(),
            name: self.name.clone(),
            email: self.email.clone(),
            age: self.age,
            bio: self.bio.clone(),
            avatar_url: copy_opt_string(&self.avatar_url),
            preferences: Preferences {
                theme: self.preferences.theme.clone(),
                language: self.preferences.language.clone(),
                notifications: self.preferences.notifications.clone(),
            },
            social_links: copy_links(&self.social_links),
            created_at: self.created_at.clone(),
        }
    }
}

pub fn copy_opt_document(d: &Option<Document>) -> (r: Option<Document>)
    ensures
        opt_document_equiv(r, *d),
{
    match d {
        Some(x) => Some(x.duplicate()),
        None => None,
    }
}

} // verus!

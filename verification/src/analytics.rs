//! The analytics transform: derives metrics from a nested document, block by
//! block. Each derived block is computed only when its input substructure is
//! present and is skipped otherwise, so a partial document never fails. A
//! document that could not be parsed at all is dropped and the drop counted.

use vstd::prelude::*;

use crate::record::{
    document_equiv, Achievement, BioAnalysis, DocMetadata, DocProfile, Document, Ratio,
    Statistics, TagAnalysis,
};

verus! {

/// `part` of `whole` as an exact percentage, zero when `whole` is zero.
pub open spec fn percent_spec(part: u64, whole: u64) -> Ratio {
    if whole == 0 {
        Ratio::zero_spec()
    } else {
        Ratio { num: ((part as int) * 100) as u128, den: whole as u128 }
    }
}

pub fn percent_of(part: u64, whole: u64) -> (r: Ratio)
    ensures
        r == percent_spec(part, whole),
        r.wf(),
        whole == 0 ==> r.is_zero(),
{
    if whole == 0 {
        Ratio::zero()
    } else {
        Ratio { num: (part as u128) * 100, den: whole as u128 }
    }
}

/// The exact quotient `num / den`, zero when `den` is zero.
pub open spec fn fraction_spec(num: u64, den: u64) -> Ratio {
    if den == 0 {
        Ratio::zero_spec()
    } else {
        Ratio { num: num as u128, den: den as u128 }
    }
}

pub fn fraction_of(num: u64, den: u64) -> (r: Ratio)
    ensures
        r == fraction_spec(num, den),
        r.wf(),
        den == 0 ==> r.is_zero(),
{
    if den == 0 {
        Ratio::zero()
    } else {
        Ratio { num: num as u128, den: den as u128 }
    }
}

/// How many tags are exactly the text "verified".
pub open spec fn verified_count(tags: Seq<String>) -> int
    decreases tags.len(),
{
    if tags.len() == 0 {
        0
    } else {
        verified_count(tags.drop_last()) + (if tags.last()@ == "verified"@ {
            1int
        } else {
            0int
        })
    }
}

proof fn lemma_verified_count_bound(tags: Seq<String>)
    ensures
        0 <= verified_count(tags) <= tags.len(),
    decreases tags.len(),
{
    if tags.len() > 0 {
        lemma_verified_count_bound(tags.drop_last());
    }
}

/// The tag metrics derived from a tag list.
pub open spec fn tag_analysis_spec(tags: Seq<String>) -> TagAnalysis {
    TagAnalysis {
        total_tags: tags.len() as u64,
        verified_tags: verified_count(tags) as u64,
        verification_rate: percent_spec(verified_count(tags) as u64, tags.len() as u64),
    }
}

/// Counts the tags and the "verified" tags and derives the verification
/// rate, which is zero for an empty tag list.
pub fn analyze_tags(tags: &Vec<String>) -> (r: TagAnalysis)
    ensures
        r == tag_analysis_spec(tags@),
        r.total_tags == tags@.len(),
        r.verified_tags as int == verified_count(tags@),
        r.verification_rate == percent_spec(r.verified_tags, r.total_tags),
        tags@.len() == 0 ==> r.verification_rate.is_zero(),
{
    let target = String::from_str("verified");
    let mut count: u64 = 0;
    let mut j: usize = 0;
    while j < tags.len()
        invariant
            j <= tags@.len(),
            count <= j,
            count as int == verified_count(tags@.take(j as int)),
            target@ == "verified"@,
        decreases tags@.len() - j,
    {
        proof {
            assert(tags@.take(j as int + 1).drop_last() =~= tags@.take(j as int));
            assert(tags@.take(j as int + 1).last() == tags@[j as int]);
        }
        if tags[j] == target {
            count = count + 1;
        }
        j += 1;
    }
    proof {
        assert(tags@.take(tags@.len() as int) =~= tags@);
        lemma_verified_count_bound(tags@);
    }
    let total: u64 = tags.len() as u64;
    TagAnalysis {
        total_tags: total,
        verified_tags: count,
        verification_rate: percent_of(count, total),
    }
}

/// The summed points of an achievement list; an entry without a points field
/// contributes nothing.
pub open spec fn points_sum(entries: Seq<Achievement>) -> int
    decreases entries.len(),
{
    if entries.len() == 0 {
        0
    } else {
        points_sum(entries.drop_last()) + (match entries.last().points {
            Some(p) => p as int,
            None => 0int,
        })
    }
}

proof fn lemma_points_sum_nonneg(entries: Seq<Achievement>)
    ensures
        0 <= points_sum(entries),
    decreases entries.len(),
{
    if entries.len() > 0 {
        lemma_points_sum_nonneg(entries.drop_last());
    }
}

/// An integer held within the range of `u64`.
pub open spec fn clamp_u64(x: int) -> int {
    if x <= u64::MAX {
        x
    } else {
        u64::MAX as int
    }
}

/// Sums the points of all entries, skipping entries without points; the
/// total saturates rather than wrapping on (absurdly large) inputs.
pub fn total_points(entries: &Vec<Achievement>) -> (r: u64)
    ensures
        r as int == clamp_u64(points_sum(entries@)),
        points_sum(entries@) <= u64::MAX ==> r as int == points_sum(entries@),
{
    let mut total: u64 = 0;
    let mut j: usize = 0;
    while j < entries.len()
        invariant
            j <= entries@.len(),
            total as int == clamp_u64(points_sum(entries@.take(j as int))),
        decreases entries@.len() - j,
    {
        proof {
            assert(entries@.take(j as int + 1).drop_last() =~= entries@.take(j as int));
            assert(entries@.take(j as int + 1).last() == entries@[j as int]);
            lemma_points_sum_nonneg(entries@.take(j as int));
        }
        match entries[j].points {
            Some(p) => {
                total = total.saturating_add(p);
            },
            None => {},
        }
        j += 1;
    }
    proof {
        assert(entries@.take(entries@.len() as int) =~= entries@);
    }
    total
}

/// The Unicode white-space characters, exactly those that
/// `char::is_whitespace` recognizes.
pub open spec fn is_space(c: char) -> bool {
    ||| (c as u32) == 0x20
    ||| ((c as u32) >= 0x09 && (c as u32) <= 0x0D)
    ||| (c as u32) == 0x85
    ||| (c as u32) == 0xA0
    ||| (c as u32) == 0x1680
    ||| ((c as u32) >= 0x2000 && (c as u32) <= 0x200A)
    ||| (c as u32) == 0x2028
    ||| (c as u32) == 0x2029
    ||| (c as u32) == 0x202F
    ||| (c as u32) == 0x205F
    ||| (c as u32) == 0x3000
}

fn char_is_space(c: char) -> (r: bool)
    ensures
        r == is_space(c),
{
    let u = c as u32;
    u == 0x20 || (u >= 0x09 && u <= 0x0D) || u == 0x85 || u == 0xA0 || u == 0x1680 || (u >= 0x2000
        && u <= 0x200A) || u == 0x2028 || u == 0x2029 || u == 0x202F || u == 0x205F || u == 0x3000
}

/// A word starts at `j` when a non-space character stands there and either
/// the text begins there or a space stands just before it.
pub open spec fn word_start_at(s: Seq<char>, j: int) -> bool {
    0 <= j < s.len() && !is_space(s[j]) && (j == 0 || is_space(s[j - 1]))
}

pub open spec fn word_count_upto(s: Seq<char>, n: int) -> int
    decreases n,
{
    if n <= 0 {
        0
    } else {
        word_count_upto(s, n - 1) + (if word_start_at(s, n - 1) {
            1int
        } else {
            0int
        })
    }
}

/// The number of white-space-separated words: one per maximal run of
/// non-space characters.
pub open spec fn word_count_spec(s: Seq<char>) -> int {
    word_count_upto(s, s.len() as int)
}

pub open spec fn dot_count_upto(s: Seq<char>, n: int) -> int
    decreases n,
{
    if n <= 0 {
        0
    } else {
        dot_count_upto(s, n - 1) + (if s[n - 1] == '.' {
            1int
        } else {
            0int
        })
    }
}

/// The number of '.' characters, a deliberate simplification standing in
/// for sentence segmentation.
pub open spec fn dot_count_spec(s: Seq<char>) -> int {
    dot_count_upto(s, s.len() as int)
}

/// The bio metrics derived from a bio text.
pub open spec fn bio_analysis_spec(s: Seq<char>) -> BioAnalysis {
    BioAnalysis {
        word_count: word_count_spec(s) as u64,
        char_count: s.len() as u64,
        sentence_count: dot_count_spec(s) as u64,
        avg_words_per_sentence: fraction_spec(
            word_count_spec(s) as u64,
            dot_count_spec(s) as u64,
        ),
    }
}

/// Counts words, characters and '.' characters of a bio and derives the
/// average words per sentence, which is zero when no '.' occurs.
pub fn analyze_bio(bio: &str) -> (r: BioAnalysis)
    ensures
        r == bio_analysis_spec(bio@),
        r.word_count as int == word_count_spec(bio@),
        r.char_count == bio@.len(),
        r.sentence_count as int == dot_count_spec(bio@),
        r.avg_words_per_sentence == fraction_spec(r.word_count, r.sentence_count),
        r.sentence_count == 0 ==> r.avg_words_per_sentence.is_zero(),
{
    let n = bio.unicode_len();
    let mut words: u64 = 0;
    let mut dots: u64 = 0;
    let mut prev_space: bool = true;
    let mut j: usize = 0;
    while j < n
        invariant
            n == bio@.len(),
            j <= n,
            words <= j,
            dots <= j,
            words as int == word_count_upto(bio@, j as int),
            dots as int == dot_count_upto(bio@, j as int),
            prev_space == (j == 0 || is_space(bio@[j as int - 1])),
        decreases n - j,
    {
        let c = bio.get_char(j);
        let space = char_is_space(c);
        if !space && prev_space {
            words = words + 1;
        }
        if c == '.' {
            dots = dots + 1;
        }
        prev_space = space;
        j += 1;
    }
    BioAnalysis {
        word_count: words,
        char_count: n as u64,
        sentence_count: dots,
        avg_words_per_sentence: fraction_of(words, dots),
    }
}

proof fn lemma_dot_upto_zero(s: Seq<char>, n: int)
    requires
        n <= s.len(),
        forall|j: int| 0 <= j < s.len() ==> s[j] != '.',
    ensures
        dot_count_upto(s, n) == 0,
    decreases n,
{
    if n > 0 {
        lemma_dot_upto_zero(s, n - 1);
    }
}

/// A bio without any '.' character has sentence count zero, and its derived
/// average words per sentence is exactly zero: the division is never taken.
pub proof fn lemma_bio_without_periods(s: Seq<char>)
    requires
        forall|j: int| 0 <= j < s.len() ==> s[j] != '.',
    ensures
        bio_analysis_spec(s).sentence_count == 0,
        bio_analysis_spec(s).avg_words_per_sentence == Ratio::zero_spec(),
{
    lemma_dot_upto_zero(s, s.len() as int);
}

/// The statistics block after the transform: the engagement rate is derived
/// exactly when both the posts count and the followers count are present,
/// and is zero when the followers count is zero.
pub open spec fn transform_stats_spec(s: Statistics) -> Statistics {
    match (s.posts_count, s.followers_count) {
        (Some(p), Some(f)) => Statistics {
            posts_count: s.posts_count,
            followers_count: s.followers_count,
            following_count: s.following_count,
            likes_received: s.likes_received,
            comments_made: s.comments_made,
            engagement_rate: Some(percent_spec(p, f)),
        },
        _ => s,
    }
}

fn transform_statistics(s: Statistics) -> (r: Statistics)
    ensures
        r == transform_stats_spec(s),
{
    match (s.posts_count, s.followers_count) {
        (Some(p), Some(f)) => Statistics { engagement_rate: Some(percent_of(p, f)), ..s },
        _ => s,
    }
}

/// The profile after the transform: each derived field is filled exactly
/// when its input is present, and every original field is left as it was.
pub open spec fn transform_profile_spec(p: DocProfile) -> DocProfile {
    DocProfile {
        bio: p.bio,
        avatar_url: p.avatar_url,
        preferences: p.preferences,
        social_links: p.social_links,
        achievements: p.achievements,
        statistics: match p.statistics {
            Some(s) => Some(transform_stats_spec(s)),
            None => None,
        },
        total_achievement_points: match p.achievements {
            Some(a) => Some(clamp_u64(points_sum(a@)) as u64),
            None => p.total_achievement_points,
        },
        bio_analysis: match p.bio {
            Some(b) => Some(bio_analysis_spec(b@)),
            None => p.bio_analysis,
        },
    }
}

fn transform_profile(p: DocProfile) -> (r: DocProfile)
    ensures
        r == transform_profile_spec(p),
{
    let DocProfile {
        bio,
        avatar_url,
        preferences,
        social_links,
        achievements,
        statistics,
        total_achievement_points,
        bio_analysis,
    } = p;
    let new_statistics = match statistics {
        Some(s) => Some(transform_statistics(s)),
        None => None,
    };
    let new_total = match &achievements {
        Some(a) => Some(total_points(a)),
        None => total_achievement_points,
    };
    let new_bio_analysis = match &bio {
        Some(b) => Some(analyze_bio(b.as_str())),
        None => bio_analysis,
    };
    DocProfile {
        bio,
        avatar_url,
        preferences,
        social_links,
        achievements,
        statistics: new_statistics,
        total_achievement_points: new_total,
        bio_analysis: new_bio_analysis,
    }
}

/// The metadata after the transform: the tag analysis is derived exactly
/// when the tag list is present.
pub open spec fn transform_meta_spec(m: DocMetadata) -> DocMetadata {
    DocMetadata {
        created_at: m.created_at,
        last_login: m.last_login,
        login_count: m.login_count,
        is_verified: m.is_verified,
        is_premium: m.is_premium,
        tags: m.tags,
        tag_analysis: match m.tags {
            Some(t) => Some(tag_analysis_spec(t@)),
            None => m.tag_analysis,
        },
    }
}

fn transform_metadata(m: DocMetadata) -> (r: DocMetadata)
    ensures
        r == transform_meta_spec(m),
{
    let DocMetadata {
        created_at,
        last_login,
        login_count,
        is_verified,
        is_premium,
        tags,
        tag_analysis,
    } = m;
    let new_tag_analysis = match &tags {
        Some(t) => Some(analyze_tags(t)),
        None => tag_analysis,
    };
    DocMetadata {
        created_at,
        last_login,
        login_count,
        is_verified,
        is_premium,
        tags,
        tag_analysis: new_tag_analysis,
    }
}

/// The whole document after the transform: the four derived blocks are
/// filled where their inputs are present, everything else is unchanged.
pub open spec fn transform_spec(d: Document) -> Document {
    Document {
        id: d.id,
        name: d.name,
        email: d.email,
        age: d.age,
        profile: match d.profile {
            Some(p) => Some(transform_profile_spec(p)),
            None => None,
        },
        metadata: match d.metadata {
            Some(m) => Some(transform_meta_spec(m)),
            None => None,
        },
        created_at: d.created_at,
    }
}

/// Derives the four metric blocks of a document. A block whose input
/// substructure is absent is skipped; no original field is altered.
pub fn transform(d: Document) -> (r: Document)
    ensures
        r == transform_spec(d),
{
    let Document { id, name, email, age, profile, metadata, created_at } = d;
    let new_profile = match profile {
        Some(p) => Some(transform_profile(p)),
        None => None,
    };
    let new_metadata = match metadata {
        Some(m) => Some(transform_metadata(m)),
        None => None,
    };
    Document {
        id,
        name,
        email,
        age,
        profile: new_profile,
        metadata: new_metadata,
        created_at,
    }
}

/// The transform depends only on field values: two documents holding the
/// same values in every field transform to documents that again hold the
/// same values in every field.
pub proof fn lemma_transform_congruence(a: Document, b: Document)
    requires
        document_equiv(a, b),
    ensures
        document_equiv(transform_spec(a), transform_spec(b)),
{
    match (a.profile, b.profile) {
        (Some(p), Some(q)) => {
            match (p.achievements, q.achievements) {
                (Some(x), Some(y)) => {
                    assert(x@ =~= y@);
                },
                _ => {},
            }
            assert(crate::record::profile_equiv(
                transform_profile_spec(p),
                transform_profile_spec(q),
            ));
        },
        _ => {},
    }
    match (a.metadata, b.metadata) {
        (Some(m), Some(n)) => {
            match (m.tags, n.tags) {
                (Some(x), Some(y)) => {
                    assert(x@ =~= y@);
                },
                _ => {},
            }
            assert(crate::record::metadata_equiv(
                transform_meta_spec(m),
                transform_meta_spec(n),
            ));
        },
        _ => {},
    }
}

/// Derives the metric blocks into a fresh copy holding the transformed
/// values, leaving the input untouched.
pub fn transform_copy(d: &Document) -> (r: Document)
    ensures
        document_equiv(r, transform_spec(*d)),
{
    let copied = d.duplicate();
    proof {
        lemma_transform_congruence(copied, *d);
    }
    transform(copied)
}

/// What a fetched batch becomes: every parsed document transformed, in
/// order; every malformed one dropped.
pub open spec fn process_spec(s: Seq<Option<Document>>) -> Seq<Document>
    decreases s.len(),
{
    if s.len() == 0 {
        Seq::empty()
    } else {
        match s.last() {
            Some(d) => process_spec(s.drop_last()).push(transform_spec(d)),
            None => process_spec(s.drop_last()),
        }
    }
}

/// How many entries of a fetched batch are malformed.
pub open spec fn malformed_count(s: Seq<Option<Document>>) -> int
    decreases s.len(),
{
    if s.len() == 0 {
        0
    } else {
        malformed_count(s.drop_last()) + (if s.last() is None {
            1int
        } else {
            0int
        })
    }
}

/// Dropping is observable: the processed count plus the drop count is
/// exactly the fetched count, so a malformed document always lowers the
/// processed count below the fetched count.
pub proof fn lemma_processed_plus_dropped(s: Seq<Option<Document>>)
    ensures
        process_spec(s).len() + malformed_count(s) == s.len(),
        0 <= malformed_count(s) <= s.len(),
    decreases s.len(),
{
    if s.len() > 0 {
        lemma_processed_plus_dropped(s.drop_last());
    }
}

/// The outcome of processing one fetched batch.
pub struct ProcessOutcome {
    pub processed: Vec<Document>,
    pub dropped: u64,
}

/// Transforms every parsed document of a fetched batch in order and drops
/// each malformed entry, counting the drops rather than hiding them.
pub fn process_documents(inputs: Vec<Option<Document>>) -> (r: ProcessOutcome)
    ensures
        r.processed@ == process_spec(inputs@),
        r.dropped as int == malformed_count(inputs@),
        r.processed@.len() + r.dropped as int == inputs@.len(),
{
    let ghost orig = inputs@;
    let mut rest = inputs;
    let total = rest.len();
    proof {
        assert(orig.len() == total);
    }
    let mut processed: Vec<Document> = Vec::new();
    let mut dropped: u64 = 0;
    let mut taken: usize = 0;
    while rest.len() > 0
        invariant
            orig.len() <= usize::MAX,
            taken + rest@.len() == orig.len(),
            rest@ =~= orig.skip(taken as int),
            processed@ == process_spec(orig.take(taken as int)),
            dropped as int == malformed_count(orig.take(taken as int)),
            dropped <= taken,
        decreases rest@.len(),
    {
        proof {
            assert(orig.take(taken as int + 1).drop_last() =~= orig.take(taken as int));
            assert(orig.take(taken as int + 1).last() == orig[taken as int]);
            assert(rest@[0] == orig[taken as int]);
        }
        let item = rest.remove(0);
        match item {
            Some(d) => {
                processed.push(transform(d));
            },
            None => {
                dropped = dropped + 1;
            },
        }
        taken += 1;
        proof {
            assert(rest@ =~= orig.skip(taken as int));
        }
    }
    proof {
        assert(orig.take(taken as int) =~= orig);
        lemma_processed_plus_dropped(orig);
    }
    ProcessOutcome { processed, dropped }
}

} // verus!

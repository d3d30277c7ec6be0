//! Credibility analysis: claims, citations, wording.

use vstd::prelude::*;
use regex::Regex;
use crate::analysis::narrative::{spec_clamp_usize, spec_texts};
use crate::digits::{append_decimal, spec_decimal_chars};
use crate::script::{Layer, Scene, VideoScript, find_byte, spec_find_byte};

verus! {

/// Whether `pattern`, read as a regular expression of the crate `regex`,
/// matches somewhere in `text`; `None` where `pattern` is no such
/// expression.
pub uninterp spec fn spec_regex_is_match(pattern: Seq<char>, text: Seq<char>) -> Option<bool>;

/// The number of matches of `pattern` in `text` that do not overlap, found
/// from the left; `None` where `pattern` is no regular expression.
pub uninterp spec fn spec_regex_match_count(pattern: Seq<char>, text: Seq<char>) -> Option<nat>;

/// The number of pieces of `text` between stretches of Unicode white space.
pub uninterp spec fn spec_whitespace_word_count(text: Seq<char>) -> nat;

/// Compiles `pattern` with `Regex::new` of the crate `regex` and asks
/// `Regex::is_match` whether it matches anywhere in `text`. Both depend on
/// their arguments alone; a pattern that does not compile gives `None`.
#[verifier::external_body]
fn regex_is_match(pattern: &str, text: &str) -> (matched: Option<bool>)
    ensures
        matched == spec_regex_is_match(pattern@, text@),
{
    match Regex::new(pattern) {
        Ok(re) => Some(re.is_match(text)),
        Err(_) => None,
    }
}

/// Compiles `pattern` with `Regex::new` of the crate `regex` and counts what
/// `Regex::find_iter` yields for `text`: the successive non-overlapping
/// matches. A pattern that does not compile gives `None`.
#[verifier::external_body]
fn regex_match_count(pattern: &str, text: &str) -> (count: Option<usize>)
    ensures
        match count {
            Some(n) => spec_regex_match_count(pattern@, text@) == Some(n as nat),
            None => spec_regex_match_count(pattern@, text@).is_none(),
        },
{
    match Regex::new(pattern) {
        Ok(re) => Some(re.find_iter(text).count()),
        Err(_) => None,
    }
}

/// Counts what `str::split_whitespace` yields: the non-empty pieces of the
/// text between stretches of Unicode white space.
#[verifier::external_body]
fn whitespace_word_count(text: &str) -> (count: usize)
    ensures
        count == spec_whitespace_word_count(text@),
{
    text.split_whitespace().count()
}

/// A number with a percent sign, or `N out of M`, or `Nx faster`.
pub open spec fn spec_statistic_pattern() -> Seq<char> {
    "\\d+%|\\d+ out of \\d+|\\d+x faster"@
}

/// Words that claim the top.
pub open spec fn spec_superlative_pattern() -> Seq<char> {
    "(?i)\\b(best|fastest|first|only|proven|guaranteed)\\b"@
}

/// Words that admit no exception.
pub open spec fn spec_absolute_pattern() -> Seq<char> {
    "(?i)\\b(always|never|everyone|nobody)\\b"@
}

/// Phrases that name no one in particular.
pub open spec fn spec_weasel_pattern() -> Seq<char> {
    "(?i)\\b(many people|some people|it is believed|studies show|experts agree)\\b"@
}

/// Words of hype.
pub open spec fn spec_hype_pattern() -> Seq<char> {
    "(?i)\\b(amazing|incredible|revolutionary|game-changing|miracle|best ever)\\b"@
}

/// Whether the pattern matches in the text.
pub open spec fn spec_matches(pattern: Seq<char>, text: Seq<char>) -> bool {
    spec_regex_is_match(pattern, text) == Some(true)
}

/// A statement that calls for a source.
#[derive(Clone, Debug)]
pub struct Claim {
    pub text: String,
    pub scene_index: usize,
    pub verified: bool,
    pub reason: String,
}

/// One point of the quality checklist.
#[derive(Clone, Debug)]
pub struct ChecklistItem {
    pub passed: bool,
    pub message: String,
    pub category: String,
}

/// The result of the credibility analysis.
#[derive(Clone, Debug)]
pub struct CredibilityReport {
    pub score: u32,
    pub claims: Vec<Claim>,
    pub citations: Vec<String>,
    pub checklist: Vec<ChecklistItem>,
}

/// A claim as a plain value.
pub struct ClaimModel {
    pub text: Seq<char>,
    pub scene_index: int,
    pub verified: bool,
    pub reason: Seq<char>,
}

/// A checklist item as a plain value.
pub struct ItemModel {
    pub passed: bool,
    pub category: Seq<char>,
    pub message: Seq<char>,
}

impl Claim {
    /// The claim as a plain value.
    pub open spec fn model(&self) -> ClaimModel {
        ClaimModel {
            text: self.text@,
            scene_index: self.scene_index as int,
            verified: self.verified,
            reason: self.reason@,
        }
    }
}

impl ChecklistItem {
    /// The item as a plain value.
    pub open spec fn model(&self) -> ItemModel {
        ItemModel { passed: self.passed, category: self.category@, message: self.message@ }
    }
}

/// The claims of a list as plain values.
pub open spec fn spec_claim_models(list: Seq<Claim>) -> Seq<ClaimModel> {
    list.map_values(|c: Claim| c.model())
}

/// The items of a list as plain values.
pub open spec fn spec_item_models(list: Seq<ChecklistItem>) -> Seq<ItemModel> {
    list.map_values(|i: ChecklistItem| i.model())
}

/// Why a text is a claim, if it is one: statistics come first, then
/// superlatives, then absolute terms.
pub open spec fn spec_claim_reason(text: Seq<char>) -> Option<Seq<char>> {
    if spec_matches(spec_statistic_pattern(), text) {
        Some("Contains statistics"@)
    } else if spec_matches(spec_superlative_pattern(), text) {
        Some("Uses superlative language"@)
    } else if spec_matches(spec_absolute_pattern(), text) {
        Some("Uses absolute terms"@)
    } else {
        None
    }
}

/// The claims in the text layers among the first `n` layers of scene
/// `scene_index`, in layer order.
pub open spec fn spec_layer_claims(
    layers: Seq<Layer>,
    scene_index: int,
    verified: bool,
    n: int,
) -> Seq<ClaimModel>
    decreases n,
{
    if n <= 0 {
        Seq::empty()
    } else {
        let before = spec_layer_claims(layers, scene_index, verified, n - 1);
        match layers[n - 1] {
            Layer::Text { content, font, font_size, color, position, effects } => match spec_claim_reason(
                content@,
            ) {
                Some(reason) => before.push(
                    ClaimModel { text: content@, scene_index, verified, reason },
                ),
                None => before,
            },
            _ => before,
        }
    }
}

/// The claims in the first `n` scenes, in script order.
pub open spec fn spec_claims(scenes: Seq<Scene>, verified: bool, n: int) -> Seq<ClaimModel>
    decreases n,
{
    if n <= 0 {
        Seq::empty()
    } else {
        spec_claims(scenes, verified, n - 1) + spec_layer_claims(
            scenes[n - 1].layers@,
            n - 1,
            verified,
            scenes[n - 1].layers@.len() as int,
        )
    }
}

/// The score out of 100: the share of verified claims in percent, rounded
/// down, less 10 for each unverified claim, never below zero; 100 where
/// there is no claim.
pub open spec fn spec_credibility_score(verified: int, total: int) -> int {
    if total <= 0 {
        100
    } else {
        let score = (verified * 100) / total - 10 * (total - verified);
        if score < 0 {
            0
        } else {
            score
        }
    }
}

/// Whether `bytes` begins with `http`.
pub open spec fn spec_is_url(bytes: Seq<u8>) -> bool {
    bytes.len() >= 4 && bytes[0] == 104 && bytes[1] == 116 && bytes[2] == 116 && bytes[3] == 112
}

/// Whether `bytes` holds both a `[` and a `]`.
pub open spec fn spec_is_academic(bytes: Seq<u8>) -> bool {
    spec_find_byte(bytes, 91, 0) < bytes.len() && spec_find_byte(bytes, 93, 0) < bytes.len()
}

/// Whether a citation is too vague: no URL, no bracketed reference, and
/// shorter than ten bytes.
pub open spec fn spec_is_vague(citation: Seq<char>) -> bool {
    let bytes = vstd::utf8::encode_utf8(citation);
    !spec_is_url(bytes) && !spec_is_academic(bytes) && bytes.len() < 10
}

/// The items on the vague ones among the first `n` citations.
pub open spec fn spec_vague_items(citations: Seq<Seq<char>>, n: int) -> Seq<ItemModel>
    decreases n,
{
    if n <= 0 {
        Seq::empty()
    } else if spec_is_vague(citations[n - 1]) {
        spec_vague_items(citations, n - 1).push(
            ItemModel {
                passed: false,
                category: "Citations"@,
                message: "Citation '"@ + citations[n - 1]
                    + "' is too vague. Use a URL or academic format."@,
            },
        )
    } else {
        spec_vague_items(citations, n - 1)
    }
}

/// The items on citations: without citations one that says so; else one
/// for each vague citation, and one that counts them all.
pub open spec fn spec_citation_items(citations: Seq<Seq<char>>) -> Seq<ItemModel> {
    if citations.len() == 0 {
        seq![
            ItemModel {
                passed: false,
                category: "Citations"@,
                message: "No citations provided. Add sources to build trust."@,
            },
        ]
    } else {
        spec_vague_items(citations, citations.len() as int).push(
            ItemModel {
                passed: true,
                category: "Citations"@,
                message: spec_decimal_chars(citations.len()) + " citations provided."@,
            },
        )
    }
}

/// What the texts of the first `n` layers add up to: the layers with a
/// weasel phrase, the matches of hype words, and the words between white
/// space. Each sum stops at `usize::MAX`.
pub open spec fn spec_layer_wording(layers: Seq<Layer>, start: (int, int, int), n: int) -> (
    int,
    int,
    int,
)
    decreases n,
{
    if n <= 0 {
        start
    } else {
        let before = spec_layer_wording(layers, start, n - 1);
        match layers[n - 1] {
            Layer::Text { content, font, font_size, color, position, effects } => (
                if spec_matches(spec_weasel_pattern(), content@) {
                    spec_clamp_usize(before.0 + 1)
                } else {
                    before.0
                },
                match spec_regex_match_count(spec_hype_pattern(), content@) {
                    Some(count) => spec_clamp_usize(before.1 + count),
                    None => before.1,
                },
                spec_clamp_usize(before.2 + spec_whitespace_word_count(content@)),
            ),
            _ => before,
        }
    }
}

/// What the texts of the first `n` scenes add up to.
pub open spec fn spec_wording(scenes: Seq<Scene>, n: int) -> (int, int, int)
    decreases n,
{
    if n <= 0 {
        (0, 0, 0)
    } else {
        spec_layer_wording(
            scenes[n - 1].layers@,
            spec_wording(scenes, n - 1),
            scenes[n - 1].layers@.len() as int,
        )
    }
}

/// The item on clarity: whether any text holds a weasel phrase.
pub open spec fn spec_clarity_item(weasels: int) -> ItemModel {
    if weasels > 0 {
        ItemModel {
            passed: false,
            category: "Clarity"@,
            message: "Detected "@ + spec_decimal_chars(weasels as nat)
                + " instance(s) of weasel words (e.g., 'many people'). Be specific."@,
        }
    } else {
        ItemModel {
            passed: true,
            category: "Clarity"@,
            message: "No vague 'weasel words' detected."@,
        }
    }
}

/// The item on tone, where there is any word: whether more than one word
/// in twenty is hype.
pub open spec fn spec_tone_items(hype: int, words: int) -> Seq<ItemModel> {
    if words <= 0 {
        Seq::empty()
    } else if hype * 20 > words {
        seq![
            ItemModel {
                passed: false,
                category: "Tone"@,
                message: "High hype factor detected. Tone down superlatives for better credibility."@,
            },
        ]
    } else {
        seq![
            ItemModel {
                passed: true,
                category: "Tone"@,
                message: "Tone appears professional and balanced."@,
            },
        ]
    }
}

/// The checklist: citations, clarity, tone.
pub open spec fn spec_checklist(scenes: Seq<Scene>, citations: Seq<Seq<char>>) -> Seq<ItemModel> {
    let wording = spec_wording(scenes, scenes.len() as int);
    spec_citation_items(citations).push(spec_clarity_item(wording.0)) + spec_tone_items(
        wording.1,
        wording.2,
    )
}

/// Credibility analysis of a script.
pub struct CredibilityAnalyzer;

impl CredibilityAnalyzer {
    /// Analyze a script: its claims, its citations, the score and the
    /// checklist. A claim counts as verified where the script cites
    /// anything at all.
    pub fn analyze(script: &VideoScript) -> (report: CredibilityReport)
        ensures
            spec_claim_models(report.claims@) == spec_claims(
                script.scenes@,
                script.metadata.citations@.len() > 0,
                script.scenes@.len() as int,
            ),
            spec_texts(report.citations@) == spec_texts(script.metadata.citations@),
            spec_item_models(report.checklist@) == spec_checklist(
                script.scenes@,
                spec_texts(script.metadata.citations@),
            ),
            report.score == spec_credibility_score(
                if script.metadata.citations@.len() > 0 {
                    report.claims@.len() as int
                } else {
                    0
                },
                report.claims@.len() as int,
            ),
    {
        let claims = Self::detect_claims(script);
        let mut citations: Vec<String> = Vec::new();
        let mut i: usize = 0;
        while i < script.metadata.citations.len()
            invariant
                i <= script.metadata.citations@.len(),
                citations@.len() == i,
                forall|j: int| 0 <= j < i ==> citations@[j]@ == script.metadata.citations@[j]@,
            decreases script.metadata.citations@.len() - i,
        {
            citations.push(script.metadata.citations[i].clone());
            i = i + 1;
        }
        assert(spec_texts(citations@) =~= spec_texts(script.metadata.citations@));
        let total: usize = claims.len();
        let verified: usize = if script.metadata.citations.len() > 0 {
            total
        } else {
            0
        };
        let score: u32 = Self::score(verified, total);
        let checklist = Self::generate_checklist(script, &citations);
        CredibilityReport { score, claims, citations, checklist }
    }

    /// The score for `verified` verified claims out of `total`.
    pub fn score(verified: usize, total: usize) -> (score: u32)
        requires
            verified <= total,
        ensures
            score == spec_credibility_score(verified as int, total as int),
    {
        if total == 0 {
            return 100;
        }
        let base: u128 = ((verified as u128) * 100) / (total as u128);
        assert(base <= 100) by (nonlinear_arith)
            requires
                base == (verified * 100) / (total as int),
                0 <= verified <= total,
                total > 0,
        ;
        let penalty: u128 = 10 * ((total - verified) as u128);
        if penalty >= base {
            0
        } else {
            (base - penalty) as u32
        }
    }

    /// The checklist for a script with the given citations.
    pub fn generate_checklist(script: &VideoScript, citations: &Vec<String>) -> (items: Vec<
        ChecklistItem,
    >)
        ensures
            spec_item_models(items@) == spec_checklist(script.scenes@, spec_texts(citations@)),
    {
        let ghost cited = spec_texts(citations@);
        let mut items: Vec<ChecklistItem> = Vec::new();
        if citations.len() == 0 {
            items.push(
                ChecklistItem {
                    passed: false,
                    category: String::from_str("Citations"),
                    message: String::from_str("No citations provided. Add sources to build trust."),
                },
            );
            assert(spec_item_models(items@) =~= spec_citation_items(cited));
        } else {
            assert(spec_item_models(items@) =~= spec_vague_items(cited, 0));
            let mut i: usize = 0;
            while i < citations.len()
                invariant
                    i <= citations@.len(),
                    cited == spec_texts(citations@),
                    spec_item_models(items@) == spec_vague_items(cited, i as int),
                decreases citations@.len() - i,
            {
                let citation = &citations[i];
                let ghost before = spec_item_models(items@);
                assert(cited[i as int] == citation@);
                if Self::is_vague(citation.as_str()) {
                    let mut message = String::from_str("Citation '");
                    message.append(citation.as_str());
                    message.append("' is too vague. Use a URL or academic format.");
                    items.push(
                        ChecklistItem {
                            passed: false,
                            category: String::from_str("Citations"),
                            message,
                        },
                    );
                    assert(spec_item_models(items@) =~= before.push(
                        ItemModel {
                            passed: false,
                            category: "Citations"@,
                            message: "Citation '"@ + citation@
                                + "' is too vague. Use a URL or academic format."@,
                        },
                    ));
                }
                i = i + 1;
            }
            let ghost vague = spec_item_models(items@);
            let mut message = String::new();
            append_decimal(&mut message, citations.len() as u64);
            message.append(" citations provided.");
            assert(message@ =~= spec_decimal_chars(cited.len()) + " citations provided."@);
            items.push(
                ChecklistItem { passed: true, category: String::from_str("Citations"), message },
            );
            assert(spec_item_models(items@) =~= spec_citation_items(cited));
        }
        let ghost with_citations = spec_item_models(items@);
        let (weasels, hype, words) = Self::wording(script);
        if weasels > 0 {
            let mut message = String::from_str("Detected ");
            append_decimal(&mut message, weasels as u64);
            message.append(" instance(s) of weasel words (e.g., 'many people'). Be specific.");
            items.push(
                ChecklistItem { passed: false, category: String::from_str("Clarity"), message },
            );
        } else {
            items.push(
                ChecklistItem {
                    passed: true,
                    category: String::from_str("Clarity"),
                    message: String::from_str("No vague 'weasel words' detected."),
                },
            );
        }
        assert(spec_item_models(items@) =~= with_citations.push(
            spec_clarity_item(weasels as int),
        ));
        let ghost with_clarity = spec_item_models(items@);
        if words > 0 {
            if (hype as u128) * 20 > words as u128 {
                items.push(
                    ChecklistItem {
                        passed: false,
                        category: String::from_str("Tone"),
                        message: String::from_str(
                            "High hype factor detected. Tone down superlatives for better credibility.",
                        ),
                    },
                );
            } else {
                items.push(
                    ChecklistItem {
                        passed: true,
                        category: String::from_str("Tone"),
                        message: String::from_str("Tone appears professional and balanced."),
                    },
                );
            }
        }
        assert(spec_item_models(items@) =~= with_clarity + spec_tone_items(
            hype as int,
            words as int,
        ));
        items
    }

    /// Whether a citation is too vague.
    pub fn is_vague(citation: &str) -> (vague: bool)
        ensures
            vague == spec_is_vague(citation@),
    {
        let bytes = citation.as_bytes();
        let n: usize = bytes.len();
        let is_url: bool = n >= 4 && bytes[0] == 104 && bytes[1] == 116 && bytes[2] == 116
            && bytes[3] == 112;
        let is_academic: bool = find_byte(bytes, 91, 0) < n && find_byte(bytes, 93, 0) < n;
        !is_url && !is_academic && n < 10
    }

    /// What the texts of the script add up to: layers with a weasel
    /// phrase, matches of hype words, and words between white space.
    fn wording(script: &VideoScript) -> (sums: (usize, usize, usize))
        ensures
            (sums.0 as int, sums.1 as int, sums.2 as int) == spec_wording(
                script.scenes@,
                script.scenes@.len() as int,
            ),
    {
        let mut weasels: usize = 0;
        let mut hype: usize = 0;
        let mut words: usize = 0;
        let mut i: usize = 0;
        while i < script.scenes.len()
            invariant
                i <= script.scenes@.len(),
                (weasels as int, hype as int, words as int) == spec_wording(
                    script.scenes@,
                    i as int,
                ),
            decreases script.scenes@.len() - i,
        {
            let scene = &script.scenes[i];
            let ghost start = (weasels as int, hype as int, words as int);
            let mut k: usize = 0;
            while k < scene.layers.len()
                invariant
                    k <= scene.layers@.len(),
                    (weasels as int, hype as int, words as int) == spec_layer_wording(
                        scene.layers@,
                        start,
                        k as int,
                    ),
                decreases scene.layers@.len() - k,
            {
                match &scene.layers[k] {
                    Layer::Text { content, .. } => {
                        let text = content.as_str();
                        match regex_is_match(
                            "(?i)\\b(many people|some people|it is believed|studies show|experts agree)\\b",
                            text,
                        ) {
                            Some(true) => {
                                weasels = saturating_sum(weasels, 1);
                            },
                            _ => {},
                        }
                        match regex_match_count(
                            "(?i)\\b(amazing|incredible|revolutionary|game-changing|miracle|best ever)\\b",
                            text,
                        ) {
                            Some(count) => {
                                hype = saturating_sum(hype, count);
                            },
                            None => {},
                        }
                        words = saturating_sum(words, whitespace_word_count(text));
                    },
                    _ => {},
                }
                k = k + 1;
            }
            i = i + 1;
        }
        (weasels, hype, words)
    }

    /// Why a text is a claim, if it is one.
    fn claim_reason(text: &str) -> (reason: Option<&'static str>)
        ensures
            match reason {
                Some(r) => spec_claim_reason(text@) == Some(r@),
                None => spec_claim_reason(text@).is_none(),
            },
    {
        match regex_is_match("\\d+%|\\d+ out of \\d+|\\d+x faster", text) {
            Some(true) => {
                return Some("Contains statistics");
            },
            _ => {},
        }
        match regex_is_match("(?i)\\b(best|fastest|first|only|proven|guaranteed)\\b", text) {
            Some(true) => {
                return Some("Uses superlative language");
            },
            _ => {},
        }
        match regex_is_match("(?i)\\b(always|never|everyone|nobody)\\b", text) {
            Some(true) => Some("Uses absolute terms"),
            _ => None,
        }
    }

    /// The claims of a script: the texts with statistics, superlatives or
    /// absolute terms.
    pub fn detect_claims(script: &VideoScript) -> (claims: Vec<Claim>)
        ensures
            spec_claim_models(claims@) == spec_claims(
                script.scenes@,
                script.metadata.citations@.len() > 0,
                script.scenes@.len() as int,
            ),
    {
        let verified: bool = script.metadata.citations.len() > 0;
        let mut claims: Vec<Claim> = Vec::new();
        assert(spec_claim_models(claims@) =~= spec_claims(script.scenes@, verified, 0));
        let mut i: usize = 0;
        while i < script.scenes.len()
            invariant
                i <= script.scenes@.len(),
                spec_claim_models(claims@) == spec_claims(script.scenes@, verified, i as int),
            decreases script.scenes@.len() - i,
        {
            let scene = &script.scenes[i];
            let ghost start = spec_claim_models(claims@);
            assert(start =~= start + spec_layer_claims(scene.layers@, i as int, verified, 0));
            let mut k: usize = 0;
            while k < scene.layers.len()
                invariant
                    k <= scene.layers@.len(),
                    spec_claim_models(claims@) == start + spec_layer_claims(
                        scene.layers@,
                        i as int,
                        verified,
                        k as int,
                    ),
                decreases scene.layers@.len() - k,
            {
                let ghost before = spec_claim_models(claims@);
                match &scene.layers[k] {
                    Layer::Text { content, .. } => {
                        match Self::claim_reason(content.as_str()) {
                            Some(reason) => {
                                claims.push(
                                    Claim {
                                        text: content.clone(),
                                        scene_index: i,
                                        verified,
                                        reason: String::from_str(reason),
                                    },
                                );
                                assert(spec_claim_models(claims@) =~= before.push(
                                    ClaimModel {
                                        text: content@,
                                        scene_index: i as int,
                                        verified,
                                        reason: reason@,
                                    },
                                ));
                            },
                            None => {},
                        }
                    },
                    _ => {},
                }
                assert(spec_claim_models(claims@) =~= start + spec_layer_claims(
                    scene.layers@,
                    i as int,
                    verified,
                    k as int + 1,
                ));
                k = k + 1;
            }
            i = i + 1;
        }
        claims
    }
}

/// The sum of two counts, stopping at `usize::MAX`.
fn saturating_sum(a: usize, b: usize) -> (sum: usize)
    ensures
        sum == spec_clamp_usize(a + b),
{
    if b > usize::MAX - a {
        usize::MAX
    } else {
        a + b
    }
}

} // verus!

//! Narrative analysis: structure, pacing and visual density of a script.

use vstd::prelude::*;
use unicode_segmentation::UnicodeSegmentation;
use crate::decimal::{Decimal, spec_clamp_i64, spec_fixed_chars};
use crate::digits::{append_decimal, spec_decimal_chars};
use crate::script::{Layer, Scene, SceneType, VideoScript};

verus! {

/// The number of words of a text by the word boundaries of Unicode text
/// segmentation (UAX #29).
pub uninterp spec fn spec_unicode_word_count(text: Seq<char>) -> nat;

/// Calls `unicode_words` of the crate `unicode_segmentation` and counts what
/// it yields: the substrings between UAX #29 word boundaries that hold an
/// alphanumeric character. The count depends on the text alone.
#[verifier::external_body]
fn unicode_word_count(text: &str) -> (count: usize)
    ensures
        count == spec_unicode_word_count(text@),
{
    text.unicode_words().count()
}

/// A scene whose pace is off.
#[derive(Clone, Debug)]
pub struct PacingAlert {
    pub scene_index: usize,
    /// Words per minute.
    pub wpm: Decimal,
    pub message: String,
}

/// A scene that may lose viewers.
#[derive(Clone, Debug)]
pub struct RetentionWarning {
    pub scene_index: usize,
    pub message: String,
}

/// How much a recommendation matters.
#[derive(Clone, Copy, Debug, PartialEq, Eq, Structural)]
pub enum Severity {
    Info,
    Warning,
    Error,
}

/// A recommendation on the structure of a script.
#[derive(Clone, Debug)]
pub struct StructureRecommendation {
    pub severity: Severity,
    pub message: String,
    pub category: String,
}

/// The result of the narrative analysis.
#[derive(Clone, Debug)]
pub struct NarrativeReport {
    pub structure_valid: bool,
    pub structure_errors: Vec<String>,
    pub structure_recommendations: Vec<StructureRecommendation>,
    pub pacing_alerts: Vec<PacingAlert>,
    pub retention_warnings: Vec<RetentionWarning>,
    pub score: u32,
}

/// A recommendation as a plain value.
pub struct RecommendationModel {
    pub severity: Severity,
    pub category: Seq<char>,
    pub message: Seq<char>,
}

/// A pacing alert as a plain value.
pub struct PacingModel {
    pub scene_index: int,
    pub wpm: int,
    pub message: Seq<char>,
}

/// A retention warning as a plain value.
pub struct RetentionModel {
    pub scene_index: int,
    pub message: Seq<char>,
}

impl StructureRecommendation {
    /// The recommendation as a plain value.
    pub open spec fn model(&self) -> RecommendationModel {
        RecommendationModel {
            severity: self.severity,
            category: self.category@,
            message: self.message@,
        }
    }
}

impl PacingAlert {
    /// The alert as a plain value; `wpm` in thousandths.
    pub open spec fn model(&self) -> PacingModel {
        PacingModel {
            scene_index: self.scene_index as int,
            wpm: self.wpm.millis as int,
            message: self.message@,
        }
    }
}

impl RetentionWarning {
    /// The warning as a plain value.
    pub open spec fn model(&self) -> RetentionModel {
        RetentionModel { scene_index: self.scene_index as int, message: self.message@ }
    }
}

/// The recommendations of a list as plain values.
pub open spec fn spec_recommendation_models(list: Seq<StructureRecommendation>) -> Seq<
    RecommendationModel,
> {
    list.map_values(|r: StructureRecommendation| r.model())
}

/// The alerts of a list as plain values.
pub open spec fn spec_pacing_models(list: Seq<PacingAlert>) -> Seq<PacingModel> {
    list.map_values(|a: PacingAlert| a.model())
}

/// The warnings of a list as plain values.
pub open spec fn spec_retention_models(list: Seq<RetentionWarning>) -> Seq<RetentionModel> {
    list.map_values(|w: RetentionWarning| w.model())
}

/// The strings of a list as plain values.
pub open spec fn spec_texts(list: Seq<String>) -> Seq<Seq<char>> {
    list.map_values(|s: String| s@)
}

/// The value `x`, cut off at the largest `usize`.
pub open spec fn spec_clamp_usize(x: int) -> int {
    if x > usize::MAX as int {
        usize::MAX as int
    } else {
        x
    }
}

/// The words in the text layers among the first `n` layers. The count
/// stops at `usize::MAX`.
pub open spec fn spec_count_words(layers: Seq<Layer>, n: int) -> int
    decreases n,
{
    if n <= 0 {
        0
    } else {
        let before = spec_count_words(layers, n - 1);
        match layers[n - 1] {
            Layer::Text { content, font, font_size, color, position, effects } => spec_clamp_usize(
                before + spec_unicode_word_count(content@),
            ),
            _ => before,
        }
    }
}

/// Whether one of the first `n` scenes plays the given part.
pub open spec fn spec_has_part(scenes: Seq<Scene>, part: SceneType, n: int) -> bool {
    exists|i: int| 0 <= i < n && i < scenes.len() && (#[trigger] scenes[i]).scene_type == part
}

/// What a script lacks of the three parts of a narrative, in the order
/// hook, body, payoff.
pub open spec fn spec_structure_errors(scenes: Seq<Scene>) -> Seq<Seq<char>> {
    let n = scenes.len() as int;
    (if spec_has_part(scenes, SceneType::Hook, n) {
        Seq::<Seq<char>>::empty()
    } else {
        seq!["Missing 'Hook' scene"@]
    }) + (if spec_has_part(scenes, SceneType::Body, n) {
        Seq::<Seq<char>>::empty()
    } else {
        seq!["Missing 'Body' scene"@]
    }) + (if spec_has_part(scenes, SceneType::Payoff, n) {
        Seq::<Seq<char>>::empty()
    } else {
        seq!["Missing 'Payoff' scene"@]
    })
}

/// The thousandths of a second that those of the first `n` scenes last
/// together that play the given part; all scenes where `part` is `None`.
/// The sum stops at the ends of the range of `i64`.
pub open spec fn spec_part_millis(scenes: Seq<Scene>, part: Option<SceneType>, n: int) -> int
    decreases n,
{
    if n <= 0 {
        0
    } else if part.is_none() || part == Some(scenes[n - 1].scene_type) {
        spec_clamp_i64(spec_part_millis(scenes, part, n - 1) + scenes[n - 1].duration.millis)
    } else {
        spec_part_millis(scenes, part, n - 1)
    }
}

/// A share in percent, in thousandths, rounded towards zero and cut off at
/// the range of `i64`. `whole` is positive.
pub open spec fn spec_share(part: int, whole: int) -> int {
    if part >= 0 {
        spec_clamp_i64((part * 100_000) / whole)
    } else {
        spec_clamp_i64(-(((-part) * 100_000) / whole))
    }
}

/// The pace of a scene in words per minute, in thousandths, rounded
/// towards zero and cut off at the range of `i64`. `millis` is not zero.
pub open spec fn spec_wpm(words: int, millis: int) -> int {
    if millis > 0 {
        spec_clamp_i64((words * 60_000_000) / millis)
    } else {
        spec_clamp_i64(-((words * 60_000_000) / (-millis)))
    }
}

/// The slowest pace that suits a part, in words per minute.
pub open spec fn spec_min_wpm(part: SceneType) -> int {
    match part {
        SceneType::Hook => 140,
        SceneType::Body => 130,
        SceneType::Payoff => 120,
    }
}

/// The fastest pace that suits a part, in words per minute.
pub open spec fn spec_max_wpm(part: SceneType) -> int {
    match part {
        SceneType::Hook => 170,
        SceneType::Body => 150,
        SceneType::Payoff => 140,
    }
}

/// Whether a scene of `millis` thousandths of a second with `words` words
/// is too slow for its part. A scene of negative length always is.
pub open spec fn spec_too_slow(words: int, millis: int, part: SceneType) -> bool {
    millis != 0 && (millis < 0 || words * 60_000 < spec_min_wpm(part) * millis)
}

/// Whether a scene of `millis` thousandths of a second with `words` words
/// is too fast for its part.
pub open spec fn spec_too_fast(words: int, millis: int, part: SceneType) -> bool {
    millis > 0 && words * 60_000 > spec_max_wpm(part) * millis
}

/// The words of a pacing alert.
pub open spec fn spec_pacing_message(i: int, fast: bool, wpm: int, part: SceneType) -> Seq<char> {
    "Scene "@ + spec_decimal_chars((i + 1) as nat) + (if fast {
        " is too fast ("@
    } else {
        " is too slow ("@
    }) + spec_fixed_chars(wpm, 0) + " WPM). Target: "@ + spec_decimal_chars(
        spec_min_wpm(part) as nat,
    ) + "-"@ + spec_decimal_chars(spec_max_wpm(part) as nat)
}

/// The pacing alert of scene `i`, if its pace is off.
pub open spec fn spec_pacing_alert(scenes: Seq<Scene>, i: int) -> Option<PacingModel> {
    let scene = scenes[i];
    let words = spec_count_words(scene.layers@, scene.layers@.len() as int);
    let millis = scene.duration.millis as int;
    if spec_too_slow(words, millis, scene.scene_type) {
        Some(
            PacingModel {
                scene_index: i,
                wpm: spec_wpm(words, millis),
                message: spec_pacing_message(i, false, spec_wpm(words, millis), scene.scene_type),
            },
        )
    } else if spec_too_fast(words, millis, scene.scene_type) {
        Some(
            PacingModel {
                scene_index: i,
                wpm: spec_wpm(words, millis),
                message: spec_pacing_message(i, true, spec_wpm(words, millis), scene.scene_type),
            },
        )
    } else {
        None
    }
}

/// The pacing alerts of the first `n` scenes, in scene order.
pub open spec fn spec_pacing_alerts(scenes: Seq<Scene>, n: int) -> Seq<PacingModel>
    decreases n,
{
    if n <= 0 {
        Seq::empty()
    } else {
        match spec_pacing_alert(scenes, n - 1) {
            Some(alert) => spec_pacing_alerts(scenes, n - 1).push(alert),
            None => spec_pacing_alerts(scenes, n - 1),
        }
    }
}

/// The words of a retention warning.
pub open spec fn spec_retention_message(i: int, millis: int) -> Seq<char> {
    "Scene "@ + spec_decimal_chars((i + 1) as nat) + " is long ("@ + spec_fixed_chars(millis, 1)
        + "s) but has low visual density. Consider adding more layers."@
}

/// The retention warnings of the first `n` scenes: one for each scene that
/// lasts more than ten seconds with fewer than two layers.
pub open spec fn spec_retention_warnings(scenes: Seq<Scene>, n: int) -> Seq<RetentionModel>
    decreases n,
{
    if n <= 0 {
        Seq::empty()
    } else {
        let scene = scenes[n - 1];
        if scene.duration.millis > 10_000 && scene.layers@.len() < 2 {
            spec_retention_warnings(scenes, n - 1).push(
                RetentionModel {
                    scene_index: n - 1,
                    message: spec_retention_message(n - 1, scene.duration.millis as int),
                },
            )
        } else {
            spec_retention_warnings(scenes, n - 1)
        }
    }
}

/// The recommendations on scene order: the first scene should be a hook,
/// the last a payoff.
pub open spec fn spec_order_recommendations(scenes: Seq<Scene>) -> Seq<RecommendationModel> {
    (if scenes[0].scene_type != SceneType::Hook {
        seq![
            RecommendationModel {
                severity: Severity::Error,
                category: "Scene Order"@,
                message: "First scene should be a Hook to grab attention"@,
            },
        ]
    } else {
        Seq::<RecommendationModel>::empty()
    }) + (if scenes.last().scene_type != SceneType::Payoff {
        seq![
            RecommendationModel {
                severity: Severity::Warning,
                category: "Scene Order"@,
                message: "Last scene should be a Payoff to drive action"@,
            },
        ]
    } else {
        Seq::<RecommendationModel>::empty()
    })
}

/// The words on a hook that is too long.
pub open spec fn spec_hook_message(share: int) -> Seq<char> {
    "Hook is too long ("@ + spec_fixed_chars(share, 1)
        + "% of video). Keep it under 15% for best retention."@
}

/// The words on a payoff that is short.
pub open spec fn spec_payoff_message(share: int) -> Seq<char> {
    "Payoff is short ("@ + spec_fixed_chars(share, 1)
        + "% of video). Consider expanding to 10%+ for stronger CTA."@
}

/// The recommendations on balance: the hooks should take no more than 15%
/// of the video, the payoffs, where there are any, at least 10%. Nothing
/// is said of a script whose scenes together have no positive duration.
pub open spec fn spec_balance_recommendations(scenes: Seq<Scene>) -> Seq<RecommendationModel> {
    let n = scenes.len() as int;
    let total = spec_part_millis(scenes, None, n);
    let hook = spec_part_millis(scenes, Some(SceneType::Hook), n);
    let payoff = spec_part_millis(scenes, Some(SceneType::Payoff), n);
    if total <= 0 {
        Seq::empty()
    } else {
        (if hook * 100 > 15 * total {
            seq![
                RecommendationModel {
                    severity: Severity::Warning,
                    category: "Duration Balance"@,
                    message: spec_hook_message(spec_share(hook, total)),
                },
            ]
        } else {
            Seq::<RecommendationModel>::empty()
        }) + (if payoff * 100 < 10 * total && payoff > 0 {
            seq![
                RecommendationModel {
                    severity: Severity::Info,
                    category: "Duration Balance"@,
                    message: spec_payoff_message(spec_share(payoff, total)),
                },
            ]
        } else {
            Seq::<RecommendationModel>::empty()
        })
    }
}

/// The recommendation on the number of scenes: three to seven are best.
pub open spec fn spec_count_recommendations(count: nat) -> Seq<RecommendationModel> {
    if count < 3 {
        seq![
            RecommendationModel {
                severity: Severity::Warning,
                category: "Scene Count"@,
                message: "Only "@ + spec_decimal_chars(count)
                    + " scene(s) detected. Videos with 3-7 scenes typically perform better."@,
            },
        ]
    } else if count > 7 {
        seq![
            RecommendationModel {
                severity: Severity::Info,
                category: "Scene Count"@,
                message: spec_decimal_chars(count)
                    + " scenes detected. Consider consolidating for better pacing (optimal: 3-7)."@,
            },
        ]
    } else {
        Seq::empty()
    }
}

/// The words on a missing transition behind scene `i`.
pub open spec fn spec_transition_message(i: int) -> Seq<char> {
    "Scene "@ + spec_decimal_chars((i + 1) as nat) + " \u{2192} "@ + spec_decimal_chars(
        (i + 2) as nat,
    ) + " has no transition. Consider adding fade/dissolve for smoother flow."@
}

/// The recommendations on transitions among the first `n` scenes: one
/// for each scene of more than three seconds that has none.
pub open spec fn spec_transition_recommendations(scenes: Seq<Scene>, n: int) -> Seq<
    RecommendationModel,
>
    decreases n,
{
    if n <= 0 {
        Seq::empty()
    } else {
        let scene = scenes[n - 1];
        if scene.transition.is_none() && scene.duration.millis > 3000 {
            spec_transition_recommendations(scenes, n - 1).push(
                RecommendationModel {
                    severity: Severity::Info,
                    category: "Transitions"@,
                    message: spec_transition_message(n - 1),
                },
            )
        } else {
            spec_transition_recommendations(scenes, n - 1)
        }
    }
}

/// All recommendations on the structure of a script: on scene order, on
/// balance, on the number of scenes, and on the transitions behind every
/// scene but the last. A script without scenes gets none.
pub open spec fn spec_recommendations(scenes: Seq<Scene>) -> Seq<RecommendationModel> {
    if scenes.len() == 0 {
        Seq::empty()
    } else {
        spec_order_recommendations(scenes) + spec_balance_recommendations(scenes)
            + spec_count_recommendations(scenes.len()) + spec_transition_recommendations(
            scenes,
            scenes.len() - 1,
        )
    }
}

/// The number of warnings among the first `n` recommendations.
pub open spec fn spec_warning_count(list: Seq<RecommendationModel>, n: int) -> int
    decreases n,
{
    if n <= 0 {
        0
    } else {
        spec_warning_count(list, n - 1) + if list[n - 1].severity == Severity::Warning {
            1int
        } else {
            0int
        }
    }
}

/// The score of a script out of 100: 30 off for a structure that lacks a
/// part, 10 for each pacing alert, 5 for each retention warning, 3 for
/// each recommendation that is a warning; never below zero.
pub open spec fn spec_narrative_score(
    structure_valid: bool,
    alerts: int,
    warnings: int,
    warning_recommendations: int,
) -> int {
    let score = 100 - (if structure_valid {
        0int
    } else {
        30int
    }) - 10 * alerts - 5 * warnings - 3 * warning_recommendations;
    if score < 0 {
        0
    } else {
        score
    }
}

/// Narrative analysis of a script.
pub struct NarrativeAnalyzer;

impl NarrativeAnalyzer {
    /// Analyze a script: structure, recommendations, pacing, visual
    /// density, and the score that follows from them.
    pub fn analyze(script: &VideoScript) -> (report: NarrativeReport)
        ensures
            report.structure_valid == (spec_structure_errors(script.scenes@).len() == 0),
            spec_texts(report.structure_errors@) == spec_structure_errors(script.scenes@),
            spec_recommendation_models(report.structure_recommendations@) == spec_recommendations(
                script.scenes@,
            ),
            spec_pacing_models(report.pacing_alerts@) == spec_pacing_alerts(
                script.scenes@,
                script.scenes@.len() as int,
            ),
            spec_retention_models(report.retention_warnings@) == spec_retention_warnings(
                script.scenes@,
                script.scenes@.len() as int,
            ),
            report.score == spec_narrative_score(
                report.structure_valid,
                report.pacing_alerts@.len() as int,
                report.retention_warnings@.len() as int,
                spec_warning_count(
                    spec_recommendations(script.scenes@),
                    spec_recommendations(script.scenes@).len() as int,
                ),
            ),
    {
        let (structure_valid, structure_errors) = Self::validate_structure(script);
        let structure_recommendations = Self::analyze_structure_enhancements(script);
        let pacing_alerts = Self::analyze_pacing(script);
        let retention_warnings = Self::analyze_visual_density(script);
        let ghost models = spec_recommendation_models(structure_recommendations@);
        let mut warnings: usize = 0;
        let mut i: usize = 0;
        while i < structure_recommendations.len()
            invariant
                i <= structure_recommendations@.len(),
                models == spec_recommendation_models(structure_recommendations@),
                warnings == spec_warning_count(models, i as int),
                warnings <= i,
            decreases structure_recommendations@.len() - i,
        {
            match structure_recommendations[i].severity {
                Severity::Warning => {
                    warnings = warnings + 1;
                },
                _ => {},
            }
            i = i + 1;
        }
        let mut score: u128 = 100;
        if !structure_valid {
            score = 70;
        }
        let off: u128 = 10 * (pacing_alerts.len() as u128) + 5 * (retention_warnings.len() as u128)
            + 3 * (warnings as u128);
        let score: u32 = if off >= score {
            0
        } else {
            (score - off) as u32
        };
        NarrativeReport {
            structure_valid,
            structure_errors,
            structure_recommendations,
            pacing_alerts,
            retention_warnings,
            score,
        }
    }

    /// Whether the script has a hook, a body and a payoff, and what it
    /// lacks.
    pub fn validate_structure(script: &VideoScript) -> (result: (bool, Vec<String>))
        ensures
            spec_texts(result.1@) == spec_structure_errors(script.scenes@),
            result.0 == (result.1@.len() == 0),
            result.0 == (spec_structure_errors(script.scenes@).len() == 0),
    {
        let ghost scenes = script.scenes@;
        let mut has_hook = false;
        let mut has_body = false;
        let mut has_payoff = false;
        let mut i: usize = 0;
        while i < script.scenes.len()
            invariant
                i <= scenes.len(),
                scenes == script.scenes@,
                has_hook == spec_has_part(scenes, SceneType::Hook, i as int),
                has_body == spec_has_part(scenes, SceneType::Body, i as int),
                has_payoff == spec_has_part(scenes, SceneType::Payoff, i as int),
            decreases scenes.len() - i,
        {
            match script.scenes[i].scene_type {
                SceneType::Hook => {
                    has_hook = true;
                },
                SceneType::Body => {
                    has_body = true;
                },
                SceneType::Payoff => {
                    has_payoff = true;
                },
            }
            proof {
                lemma_has_part_step(scenes, SceneType::Hook, i as int);
                lemma_has_part_step(scenes, SceneType::Body, i as int);
                lemma_has_part_step(scenes, SceneType::Payoff, i as int);
            }
            i = i + 1;
        }
        let mut errors: Vec<String> = Vec::new();
        if !has_hook {
            errors.push(String::from_str("Missing 'Hook' scene"));
        }
        if !has_body {
            errors.push(String::from_str("Missing 'Body' scene"));
        }
        if !has_payoff {
            errors.push(String::from_str("Missing 'Payoff' scene"));
        }
        assert(spec_texts(errors@) =~= spec_structure_errors(scenes));
        (errors.len() == 0, errors)
    }

    /// The thousandths of a second that the scenes of the given part last
    /// together; all scenes where `part` is `None`.
    fn part_millis(script: &VideoScript, part: Option<SceneType>) -> (total: Decimal)
        ensures
            total.millis == spec_part_millis(script.scenes@, part, script.scenes@.len() as int),
    {
        let mut total = Decimal { millis: 0 };
        let mut i: usize = 0;
        while i < script.scenes.len()
            invariant
                i <= script.scenes@.len(),
                total.millis == spec_part_millis(script.scenes@, part, i as int),
            decreases script.scenes@.len() - i,
        {
            let scene = &script.scenes[i];
            let counted: bool = match part {
                None => true,
                Some(p) => p == scene.scene_type,
            };
            if counted {
                total = total.saturating_add(scene.duration);
            }
            i = i + 1;
        }
        total
    }

    /// A share in percent: `part` of `whole`.
    fn share(part: Decimal, whole: Decimal) -> (share: Decimal)
        requires
            whole.millis > 0,
        ensures
            share.millis == spec_share(part.millis as int, whole.millis as int),
    {
        let negative: bool = part.millis < 0;
        let magnitude: i128 = if negative {
            -(part.millis as i128)
        } else {
            part.millis as i128
        };
        let quotient: i128 = (magnitude * 100_000) / (whole.millis as i128);
        let signed: i128 = if negative {
            -quotient
        } else {
            quotient
        };
        if signed > i64::MAX as i128 {
            Decimal { millis: i64::MAX }
        } else if signed < i64::MIN as i128 {
            Decimal { millis: i64::MIN }
        } else {
            Decimal { millis: signed as i64 }
        }
    }

    /// Recommendations on the structure of the script.
    pub fn analyze_structure_enhancements(script: &VideoScript) -> (recommendations: Vec<
        StructureRecommendation,
    >)
        ensures
            spec_recommendation_models(recommendations@) == spec_recommendations(script.scenes@),
    {
        let ghost scenes = script.scenes@;
        let mut recommendations: Vec<StructureRecommendation> = Vec::new();
        let count: usize = script.scenes.len();
        if count == 0 {
            assert(spec_recommendation_models(recommendations@) =~= spec_recommendations(scenes));
            return recommendations;
        }
        if script.scenes[0].scene_type != SceneType::Hook {
            recommendations.push(
                StructureRecommendation {
                    severity: Severity::Error,
                    category: String::from_str("Scene Order"),
                    message: String::from_str("First scene should be a Hook to grab attention"),
                },
            );
        }
        if script.scenes[count - 1].scene_type != SceneType::Payoff {
            recommendations.push(
                StructureRecommendation {
                    severity: Severity::Warning,
                    category: String::from_str("Scene Order"),
                    message: String::from_str("Last scene should be a Payoff to drive action"),
                },
            );
        }
        assert(spec_recommendation_models(recommendations@) =~= spec_order_recommendations(scenes));
        let ghost order = spec_recommendation_models(recommendations@);
        let total = Self::part_millis(script, None);
        if total.millis > 0 {
            let hook = Self::part_millis(script, Some(SceneType::Hook));
            let payoff = Self::part_millis(script, Some(SceneType::Payoff));
            if (hook.millis as i128) * 100 > 15 * (total.millis as i128) {
                let share = Self::share(hook, total);
                let mut message = String::from_str("Hook is too long (");
                share.append_fixed(&mut message, 1);
                message.append("% of video). Keep it under 15% for best retention.");
                recommendations.push(
                    StructureRecommendation {
                        severity: Severity::Warning,
                        category: String::from_str("Duration Balance"),
                        message,
                    },
                );
            }
            if (payoff.millis as i128) * 100 < 10 * (total.millis as i128) && payoff.millis > 0 {
                let share = Self::share(payoff, total);
                let mut message = String::from_str("Payoff is short (");
                share.append_fixed(&mut message, 1);
                message.append("% of video). Consider expanding to 10%+ for stronger CTA.");
                recommendations.push(
                    StructureRecommendation {
                        severity: Severity::Info,
                        category: String::from_str("Duration Balance"),
                        message,
                    },
                );
            }
        }
        assert(spec_recommendation_models(recommendations@) =~= order
            + spec_balance_recommendations(scenes));
        let ghost balance = spec_recommendation_models(recommendations@);
        if count < 3 {
            let mut message = String::from_str("Only ");
            append_decimal(&mut message, count as u64);
            message.append(" scene(s) detected. Videos with 3-7 scenes typically perform better.");
            recommendations.push(
                StructureRecommendation {
                    severity: Severity::Warning,
                    category: String::from_str("Scene Count"),
                    message,
                },
            );
        } else if count > 7 {
            let mut message = String::new();
            append_decimal(&mut message, count as u64);
            message.append(
                " scenes detected. Consider consolidating for better pacing (optimal: 3-7).",
            );
            assert(message@ =~= spec_decimal_chars(count as nat)
                + " scenes detected. Consider consolidating for better pacing (optimal: 3-7)."@);
            recommendations.push(
                StructureRecommendation {
                    severity: Severity::Info,
                    category: String::from_str("Scene Count"),
                    message,
                },
            );
        }
        assert(spec_recommendation_models(recommendations@) =~= balance
            + spec_count_recommendations(scenes.len()));
        let ghost counted = spec_recommendation_models(recommendations@);
        let mut i: usize = 0;
        while i < count - 1
            invariant
                i <= count - 1,
                count == scenes.len(),
                scenes == script.scenes@,
                spec_recommendation_models(recommendations@) == counted
                    + spec_transition_recommendations(scenes, i as int),
            decreases count - 1 - i,
        {
            let scene = &script.scenes[i];
            let ghost before = spec_recommendation_models(recommendations@);
            if scene.transition.is_none() && scene.duration.millis > 3000 {
                let mut message = String::from_str("Scene ");
                append_decimal(&mut message, (i as u64) + 1);
                message.append(" \u{2192} ");
                append_decimal(&mut message, (i as u64) + 2);
                message.append(
                    " has no transition. Consider adding fade/dissolve for smoother flow.",
                );
                assert(message@ =~= spec_transition_message(i as int));
                recommendations.push(
                    StructureRecommendation {
                        severity: Severity::Info,
                        category: String::from_str("Transitions"),
                        message,
                    },
                );
                assert(spec_recommendation_models(recommendations@) =~= before.push(
                    RecommendationModel {
                        severity: Severity::Info,
                        category: "Transitions"@,
                        message: spec_transition_message(i as int),
                    },
                ));
            }
            assert(spec_recommendation_models(recommendations@) =~= counted
                + spec_transition_recommendations(scenes, i as int + 1));
            i = i + 1;
        }
        recommendations
    }

    /// The pace of a scene in words per minute.
    fn words_per_minute(words: usize, millis: i64) -> (wpm: Decimal)
        requires
            millis != 0,
        ensures
            wpm.millis == spec_wpm(words as int, millis as int),
    {
        let scaled: i128 = (words as i128) * 60_000_000;
        let signed: i128 = if millis > 0 {
            scaled / (millis as i128)
        } else {
            -(scaled / (-(millis as i128)))
        };
        if signed > i64::MAX as i128 {
            Decimal { millis: i64::MAX }
        } else if signed < i64::MIN as i128 {
            Decimal { millis: i64::MIN }
        } else {
            Decimal { millis: signed as i64 }
        }
    }

    /// The slowest and the fastest pace that suits a part.
    fn pace_range(part: SceneType) -> (range: (u64, u64))
        ensures
            range.0 == spec_min_wpm(part),
            range.1 == spec_max_wpm(part),
    {
        match part {
            SceneType::Hook => (140, 170),
            SceneType::Body => (130, 150),
            SceneType::Payoff => (120, 140),
        }
    }

    /// Pacing alerts: one for each scene that is too slow or too fast for
    /// its part. A scene of no length has no pace.
    pub fn analyze_pacing(script: &VideoScript) -> (alerts: Vec<PacingAlert>)
        ensures
            spec_pacing_models(alerts@) == spec_pacing_alerts(
                script.scenes@,
                script.scenes@.len() as int,
            ),
    {
        let ghost scenes = script.scenes@;
        let mut alerts: Vec<PacingAlert> = Vec::new();
        assert(spec_pacing_models(alerts@) =~= spec_pacing_alerts(scenes, 0));
        let mut i: usize = 0;
        while i < script.scenes.len()
            invariant
                i <= scenes.len(),
                scenes == script.scenes@,
                spec_pacing_models(alerts@) == spec_pacing_alerts(scenes, i as int),
            decreases scenes.len() - i,
        {
            let scene = &script.scenes[i];
            let ghost before = spec_pacing_models(alerts@);
            let millis: i64 = scene.duration.millis;
            if millis != 0 {
                let words: usize = Self::count_words(scene);
                let (min_wpm, max_wpm) = Self::pace_range(scene.scene_type);
                assert(-170 * 0x8000_0000_0000_0000 <= min_wpm * millis <= 170
                    * 0x8000_0000_0000_0000 && -170 * 0x8000_0000_0000_0000 <= max_wpm * millis
                    <= 170 * 0x8000_0000_0000_0000) by (nonlinear_arith)
                    requires
                        0 <= min_wpm <= 170,
                        0 <= max_wpm <= 170,
                        -0x8000_0000_0000_0000 <= millis <= 0x8000_0000_0000_0000,
                ;
                let paced: i128 = (words as i128) * 60_000;
                let slow: bool = millis < 0 || paced < (min_wpm as i128) * (millis as i128);
                let fast: bool = millis > 0 && paced > (max_wpm as i128) * (millis as i128);
                if slow || fast {
                    let wpm = Self::words_per_minute(words, millis);
                    let mut message = String::from_str("Scene ");
                    append_decimal(&mut message, (i as u64) + 1);
                    if slow {
                        message.append(" is too slow (");
                    } else {
                        message.append(" is too fast (");
                    }
                    wpm.append_fixed(&mut message, 0);
                    message.append(" WPM). Target: ");
                    append_decimal(&mut message, min_wpm);
                    message.append("-");
                    append_decimal(&mut message, max_wpm);
                    assert(message@ =~= spec_pacing_message(
                        i as int,
                        !slow,
                        wpm.millis as int,
                        scene.scene_type,
                    ));
                    alerts.push(PacingAlert { scene_index: i, wpm, message });
                    assert(spec_pacing_models(alerts@) =~= before.push(
                        spec_pacing_alert(scenes, i as int).unwrap(),
                    ));
                }
            }
            i = i + 1;
        }
        alerts
    }

    /// Retention warnings: one for each scene of more than ten seconds
    /// with fewer than two layers.
    pub fn analyze_visual_density(script: &VideoScript) -> (warnings: Vec<RetentionWarning>)
        ensures
            spec_retention_models(warnings@) == spec_retention_warnings(
                script.scenes@,
                script.scenes@.len() as int,
            ),
    {
        let ghost scenes = script.scenes@;
        let mut warnings: Vec<RetentionWarning> = Vec::new();
        assert(spec_retention_models(warnings@) =~= spec_retention_warnings(scenes, 0));
        let mut i: usize = 0;
        while i < script.scenes.len()
            invariant
                i <= scenes.len(),
                scenes == script.scenes@,
                spec_retention_models(warnings@) == spec_retention_warnings(scenes, i as int),
            decreases scenes.len() - i,
        {
            let scene = &script.scenes[i];
            let ghost before = spec_retention_models(warnings@);
            if scene.duration.millis > 10_000 && scene.layers.len() < 2 {
                let mut message = String::from_str("Scene ");
                append_decimal(&mut message, (i as u64) + 1);
                message.append(" is long (");
                scene.duration.append_fixed(&mut message, 1);
                message.append("s) but has low visual density. Consider adding more layers.");
                assert(message@ =~= spec_retention_message(i as int, scene.duration.millis as int));
                warnings.push(RetentionWarning { scene_index: i, message });
                assert(spec_retention_models(warnings@) =~= before.push(
                    RetentionModel {
                        scene_index: i as int,
                        message: spec_retention_message(i as int, scene.duration.millis as int),
                    },
                ));
            }
            i = i + 1;
        }
        warnings
    }

    /// The number of words in the text layers of a scene.
    pub fn count_words(scene: &Scene) -> (count: usize)
        ensures
            count == spec_count_words(scene.layers@, scene.layers@.len() as int),
    {
        let mut count: usize = 0;
        let mut i: usize = 0;
        while i < scene.layers.len()
            invariant
                i <= scene.layers@.len(),
                count == spec_count_words(scene.layers@, i as int),
            decreases scene.layers@.len() - i,
        {
            match &scene.layers[i] {
                Layer::Text { content, .. } => {
                    let words: usize = unicode_word_count(content.as_str());
                    count = if words > usize::MAX - count {
                        usize::MAX
                    } else {
                        count + words
                    };
                },
                _ => {},
            }
            i = i + 1;
        }
        count
    }
}

/// One scene more: a part is there if it was there before or the new scene
/// plays it.
pub proof fn lemma_has_part_step(scenes: Seq<Scene>, part: SceneType, i: int)
    requires
        0 <= i < scenes.len(),
    ensures
        spec_has_part(scenes, part, i + 1) == (spec_has_part(scenes, part, i)
            || scenes[i].scene_type == part),
{
    if spec_has_part(scenes, part, i + 1) {
        let j = choose|j: int|
            0 <= j < i + 1 && j < scenes.len() && (#[trigger] scenes[j]).scene_type == part;
        if j < i {
            assert(spec_has_part(scenes, part, i));
        }
    }
    if spec_has_part(scenes, part, i) {
        let j = choose|j: int|
            0 <= j < i && j < scenes.len() && (#[trigger] scenes[j]).scene_type == part;
        assert(0 <= j < i + 1 && scenes[j].scene_type == part);
    }
    if scenes[i].scene_type == part {
        assert(0 <= i < i + 1 && scenes[i].scene_type == part);
    }
}

} // verus!

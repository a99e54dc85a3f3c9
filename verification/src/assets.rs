//! Interface data the core works with: the label and language records read
//! from the interface configuration, the built-in fallback configuration,
//! the dashboard template substitution and the end-of-round message choice.

use vstd::prelude::*;
use crate::config::IconType;
use crate::fly_viewmodel::outcome_spec;
use crate::utilities::{dec_spec, replace_spec, replace_str, u32_to_dec};

verus! {

/// Identifier and path of one image asset.
#[derive(Clone, Debug)]
pub struct ImageInfo {
    pub id: String,
    pub path: String,
}

/// One selectable interface language: its code and its display name.
#[derive(Clone, Debug, PartialEq)]
pub struct LanguageItem {
    pub code: String,
    pub name: String,
}

/// The dashboard template and the control labels.
pub struct UiLabels {
    /// Dashboard template with "{time}" and "{score}" placeholders
    pub dashboard: String,
    pub start: String,
    pub pause: String,
    pub stop: String,
    pub difficulty: String,
}

/// The labels of the three difficulty levels.
pub struct DifficultyLabels {
    pub easy: String,
    pub medium: String,
    pub hard: String,
}

/// The labels of the popup dialog.
pub struct PopupLabels {
    pub game_over: String,
    pub ok: String,
}

/// The end-of-round texts: title and button, one message per outcome, and
/// the close dialog's texts.
pub struct GameOver {
    pub title: String,
    pub ok: String,
    /// Message for a round with no hunt
    pub error: String,
    /// Message for a round with exactly one hunt
    pub warning: String,
    /// Message for two hunts and more, with a "{score}" placeholder
    pub info: String,
    pub close_title: String,
    pub close_ok: String,
    pub close_bye: String,
}

/// The whole interface configuration.
pub struct UiConfig {
    pub languages: Vec<LanguageItem>,
    pub app_name: String,
    pub labels: UiLabels,
    pub difficulty: DifficultyLabels,
    pub popup: PopupLabels,
    pub gameover: GameOver,
}

impl UiConfig {
    /// The built-in configuration shown when none can be read: English
    /// texts for every label and message.
    pub fn fallback() -> (r: UiConfig)
        ensures
            r.languages@.len() == 1,
            r.languages@[0].code@ == "en"@,
            r.languages@[0].name@ == "English"@,
            r.app_name@ == "APPName"@,
            r.labels.dashboard@ == "Dashboard"@,
            r.labels.start@ == "Start"@,
            r.labels.pause@ == "Pause"@,
            r.labels.stop@ == "Stop"@,
            r.labels.difficulty@ == "Difficulty"@,
            r.difficulty.easy@ == "⭐"@,
            r.difficulty.medium@ == "⭐⭐"@,
            r.difficulty.hard@ == "⭐⭐⭐"@,
            r.popup.game_over@ == "Game Over"@,
            r.popup.ok@ == "OK"@,
            r.gameover.title@ == "Game Over"@,
            r.gameover.ok@ == "OK"@,
            r.gameover.error@ == "BAD! YOU GOT NOTHING!"@,
            r.gameover.warning@ == "OOPS, you got ONLY 1."@,
            r.gameover.info@ == "You got {} Rustaceans."@,
            r.gameover.close_title@ == "ByeBye"@,
            r.gameover.close_ok@ == "ByeBye"@,
            r.gameover.close_bye@ == "Have a good day.\nSee you soon."@,
    {
        let mut languages: Vec<LanguageItem> = Vec::new();
        languages.push(
            LanguageItem { code: String::from_str("en"), name: String::from_str("English") },
        );
        UiConfig {
            languages,
            app_name: String::from_str("APPName"),
            labels: UiLabels {
                dashboard: String::from_str("Dashboard"),
                start: String::from_str("Start"),
                pause: String::from_str("Pause"),
                stop: String::from_str("Stop"),
                difficulty: String::from_str("Difficulty"),
            },
            difficulty: DifficultyLabels {
                easy: String::from_str("⭐"),
                medium: String::from_str("⭐⭐"),
                hard: String::from_str("⭐⭐⭐"),
            },
            popup: PopupLabels {
                game_over: String::from_str("Game Over"),
                ok: String::from_str("OK"),
            },
            gameover: GameOver {
                title: String::from_str("Game Over"),
                ok: String::from_str("OK"),
                error: String::from_str("BAD! YOU GOT NOTHING!"),
                warning: String::from_str("OOPS, you got ONLY 1."),
                info: String::from_str("You got {} Rustaceans."),
                close_title: String::from_str("ByeBye"),
                close_ok: String::from_str("ByeBye"),
                close_bye: String::from_str("Have a good day.\nSee you soon."),
            },
        }
    }
}

/// The dashboard line: the template with its "{time}" placeholder replaced
/// by the countdown text and its "{score}" placeholder by the score text.
pub fn dashboard_text(template: &str, time_s: &str, score_s: &str) -> (r: String)
    ensures
        r@ == replace_spec(
            replace_spec(template@, "{time}"@, time_s@),
            "{score}"@,
            score_s@,
        ),
{
    proof {
        reveal_strlit("{time}");
        reveal_strlit("{score}");
    }
    let once = replace_str(template, "{time}", time_s);
    replace_str(once.as_str(), "{score}", score_s)
}

/// The end-of-round message and icon for a hunt count: the failure text
/// under an error icon for no hunt, the warning text under a warning icon
/// for exactly one, and the praise text, its "{score}" placeholder replaced
/// by the count, under a trophy for two and more.
pub fn game_over_message(texts: &GameOver, score: u32) -> (r: (String, IconType))
    ensures
        outcome_spec(score) is NoHunt ==> r.0@ == texts.error@ && r.1 is Error,
        outcome_spec(score) is OneHunt ==> r.0@ == texts.warning@ && r.1 is Warning,
        outcome_spec(score) is ManyHunts ==> r.0@ == replace_spec(
            texts.info@,
            "{score}"@,
            dec_spec(score as int),
        ) && (r.1 matches IconType::Custom(e) && e@ == "🏆"@),
{
    if score == 0 {
        (String::from_str(texts.error.as_str()), IconType::Error)
    } else if score == 1 {
        (String::from_str(texts.warning.as_str()), IconType::Warning)
    } else {
        proof {
            reveal_strlit("{score}");
        }
        let count = u32_to_dec(score);
        let message = replace_str(texts.info.as_str(), "{score}", count.as_str());
        (message, IconType::Custom("🏆"))
    }
}

} // verus!

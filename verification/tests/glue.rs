use snek::log::{is_log_extension, same_as};
use snek::parse::strategy::{strategy, PhaseRule, Strategy, SuccessRule};
use snek::sender::validate_url;
use snek::target::Target;
use snek::text::{same_bytes, starts_with, str_eq};

#[test]
fn logs_are_known_by_their_extension() {
    assert!(is_log_extension("zevtc"));
    assert!(is_log_extension("evtc"));
    for other in ["", "zip", "ZEVTC", "evtc ", ".evtc", "zevtcx", "evt"] {
        assert!(!is_log_extension(other), "{:?}", other);
    }
}

#[test]
fn a_link_is_that_of_a_log_if_it_holds_its_id() {
    let link = "https://dps.report/P8NN-20200407-185643_arkk";
    assert!(same_as("20200407-185643", link));
    assert!(same_as("20200407-185643 (1)", link));
    assert!(!same_as("20200407-185644", link));
    assert!(!same_as("20200407-18564", link));
    assert!(!same_as("", link));
    assert!(!same_as("20200407-185643", "https://dps.report/P8NN-20200407-18564"));
    assert!(!same_as("20200407-185643", ""));
    assert!(same_as("20200407-185643", "------------------------20200407-185643"));
    assert!(!same_as("20200407-185643", "https://dps.report/\u{e9}8NN-20200407-185643_arkk"));
}

#[test]
fn a_webhook_url_has_its_length_and_its_beginning() {
    let good = "https://discordapp.com/api/webhooks/ABCDEFGHIJKLMNOPQR/ABCDEFGHIJKLMNOPQRSTUVWXYZ01234567890ABCDEFGHIJKLMNOPQRSTUVWXYZ01234";
    assert_eq!(good.len(), 123);
    assert!(validate_url(good));
    assert!(validate_url(&good.replace("ABCDEFGHIJKLMNOPQR/", "123456789012345678/")));
    assert!(validate_url(&good.replace("webhooks/", "webhooks?")));
    assert!(!validate_url(&good[..122]));
    assert!(!validate_url(&format!("{}5", good)));
    assert!(!validate_url(&good.replace("https", "httpx")));
    assert!(!validate_url(&good.replace("webhooks", "webhookz")));
    assert!(!validate_url(""));
}

#[test]
fn texts_are_compared_by_their_bytes() {
    assert!(str_eq("", ""));
    assert!(str_eq("caf\u{e9}", "caf\u{e9}"));
    assert!(!str_eq("cafe", "caf\u{e9}"));
    assert!(!str_eq("a", "ab"));
    assert!(!str_eq("ab", "a"));
    assert!(starts_with("abc", ""));
    assert!(starts_with("abc", "ab"));
    assert!(starts_with("abc", "abc"));
    assert!(!starts_with("abc", "abcd"));
    assert!(!starts_with("abc", "b"));
    assert!(same_bytes("hello", 1, "yellow", 1, 4));
    assert!(!same_bytes("hello", 1, "yellow", 1, 5));
    assert!(same_bytes("hello", 5, "yellow", 6, 0));
    assert!(!same_bytes("hello", 6, "yellow", 6, 0));
    assert!(!same_bytes("hello", 0, "yellow", 0, usize::MAX));
    assert!(!same_bytes("hello", usize::MAX, "yellow", 0, 1));
}

#[test]
fn each_target_has_its_strategy() {
    let plain = Strategy {
        success: SuccessRule::Default,
        phases: PhaseRule::Invulns,
        opening_toggle: false,
        min_health: 0,
    };
    assert_eq!(strategy(Target::Golem), plain);
    assert_eq!(strategy(Target::Mama), Strategy { opening_toggle: true, ..plain });
    assert_eq!(strategy(Target::Enso), Strategy { opening_toggle: true, ..plain });
    assert_eq!(strategy(Target::Siax), Strategy { phases: PhaseRule::InvulnsAndSplits, ..plain });
    assert_eq!(strategy(Target::Skor), Strategy { min_health: 5_526_980, ..plain });
    assert_eq!(strategy(Target::Arts), Strategy { success: SuccessRule::ToggleCount(4), ..plain });
    assert_eq!(strategy(Target::Arkk), Strategy { success: SuccessRule::ToggleCount(10), ..plain });
    assert_eq!(
        strategy(Target::Ai),
        Strategy { success: SuccessRule::SecondInvuln, phases: PhaseRule::TwoStage, ..plain }
    );
    assert_eq!(strategy(Target::AiElemental), Strategy { phases: PhaseRule::TwoStage, ..plain });
    assert_eq!(strategy(Target::AiDark), Strategy { phases: PhaseRule::TwoStage, ..plain });
}

use snek::filter::{Filter, Length, Unsuccessful};
use snek::message::{
    describe, fmt_time2, fmt_time3, status_msg, Embed, Generator, LogInfo, TextGenerator, Webhook,
    WebhookGenerator,
};
use snek::parse::{Encounter, Phase};
use snek::target::Target;

fn encounter(target: Target, success: bool, spans: &[(u64, u64)]) -> Encounter {
    Encounter { target, success, phases: spans.iter().map(|(s, e)| Phase::new(*s, *e)).collect() }
}

#[test]
fn times_to_the_hundredth() {
    assert_eq!(fmt_time2(0), "0.00s");
    assert_eq!(fmt_time2(9), "0.00s");
    assert_eq!(fmt_time2(10), "0.01s");
    assert_eq!(fmt_time2(999), "0.99s");
    assert_eq!(fmt_time2(1000), "1.00s");
    assert_eq!(fmt_time2(7101), "7.10s");
    assert_eq!(fmt_time2(59_999), "59.99s");
    assert_eq!(fmt_time2(60_000), "1:00.00");
    assert_eq!(fmt_time2(61_050), "1:01.05");
    assert_eq!(fmt_time2(377_403), "6:17.40");
    assert_eq!(fmt_time2(3_600_000), "60:00.00");
    assert_eq!(fmt_time2(u64::MAX), "307445734561825:51.61");
}

#[test]
fn times_to_the_thousandth() {
    assert_eq!(fmt_time3(0), "0.000s");
    assert_eq!(fmt_time3(9), "0.009s");
    assert_eq!(fmt_time3(10), "0.010s");
    assert_eq!(fmt_time3(18_798), "18.798s");
    assert_eq!(fmt_time3(59_999), "59.999s");
    assert_eq!(fmt_time3(60_000), "1:00.000");
    assert_eq!(fmt_time3(61_005), "1:01.005");
    assert_eq!(fmt_time3(377_403), "6:17.403");
    assert_eq!(fmt_time3(u64::MAX), "307445734561825:51.615");
}

#[test]
fn the_status_says_how_it_went() {
    assert_eq!(
        status_msg(&encounter(Target::Mama, true, &[(0, 74_338), (0, 4211)])),
        "**Success** in 1:14.338"
    );
    assert_eq!(
        status_msg(&encounter(Target::Siax, false, &[(100, 18_898)])),
        "**Defeat** in 18.798s"
    );
}

#[test]
fn the_phases_are_listed_after_the_status() {
    let won = encounter(
        Target::Mama,
        true,
        &[(0, 74_338), (0, 4211), (5000, 20_807), (21_000, 37_358), (40_000, 50_962)],
    );
    assert_eq!(
        describe(&won),
        "**Success** in 1:14.338\nPhases - 1: **4.21s** - 2: **15.80s** - 3: **16.35s** - 4: **10.96s**"
    );
    let lost = encounter(Target::Arkk, false, &[(0, 70_000), (0, 61_000), (61_500, 70_000)]);
    assert_eq!(describe(&lost), "**Defeat** in 1:10.000\nPhases - 1: **1:01.00** - 2: *8.50s*");
    let short = encounter(Target::Arkk, false, &[(0, 3000), (0, 3000)]);
    assert_eq!(describe(&short), "**Defeat** in 3.000s\nPhases - 1: *3.00s*");
    let bare = encounter(Target::Ai, true, &[(0, 3000)]);
    assert_eq!(describe(&bare), "**Success** in 3.000s\nPhases - ");
}

#[test]
fn named_phases_go_by_their_names() {
    let e = Encounter {
        target: Target::AiDark,
        success: true,
        phases: vec![
            Phase::named(0, 100_000, "Dark".to_string()),
            Phase::named(1, 30_000, "Fear".to_string()),
            Phase::new(30_001, 60_000),
            Phase::named(60_001, 100_000, "Guilt".to_string()),
        ],
    };
    assert_eq!(
        describe(&e),
        "**Success** in 1:40.000\nFear: **29.99s** - 2: **29.99s** - Guilt: **39.99s**"
    );
}

#[test]
fn the_splits_of_siax_have_their_own_line() {
    let spans = [(0, 90_000), (0, 10_000), (20_000, 30_000), (40_000, 90_000), (10_000, 20_000), (30_000, 40_000)];
    let expected = [
        "**Success** in 1:30.000\nPhases - ",
        "**Success** in 1:30.000\nPhases - 1: **10.00s**",
        "**Success** in 1:30.000\nPhases - 1: **10.00s** - 2: **10.00s**",
        "**Success** in 1:30.000\nPhases - 1: **10.00s** - 2: **10.00s**\nSplits - 1: **50.00s**",
        "**Success** in 1:30.000\nPhases - 1: **10.00s** - 2: **10.00s** - 3: **50.00s**\nSplits - 1: **10.00s**",
        "**Success** in 1:30.000\nPhases - 1: **10.00s** - 2: **10.00s** - 3: **50.00s**\nSplits - 1: **10.00s** - 2: **10.00s**",
    ];
    for n in 1..=6 {
        assert_eq!(describe(&encounter(Target::Siax, true, &spans[..n])), expected[n - 1]);
    }
    let seven = [spans.to_vec(), vec![(1, 2)]].concat();
    assert_eq!(
        describe(&encounter(Target::Siax, false, &seven)),
        "**Defeat** in 1:30.000\nPhases - 1: **10.00s** - 2: **10.00s** - 3: **50.00s** - 4: **10.00s** - 5: **10.00s** - 6: *0.00s*"
    );
    assert_eq!(
        describe(&encounter(Target::Enso, false, &spans[..4])),
        "**Defeat** in 1:30.000\nPhases - 1: **10.00s** - 2: **10.00s** - 3: *50.00s*"
    );
    assert_eq!(
        describe(&encounter(Target::Siax, false, &spans[..4])),
        "**Defeat** in 1:30.000\nPhases - 1: **10.00s** - 2: *10.00s*\nSplits - 1: **50.00s**"
    );
}

#[test]
fn an_embed_tells_of_one_encounter() {
    let won = encounter(Target::Siax, true, &[(0, 39_472), (0, 6713)]);
    let embed = Embed::from_log("https://dps.report/abcd-20200722-145459_siax", &won);
    assert_eq!(embed.title, "Siax the Corrupted");
    assert_eq!(embed.url, "https://dps.report/abcd-20200722-145459_siax");
    assert_eq!(embed.description, "**Success** in 39.472s\nPhases - 1: **6.71s**");
    assert_eq!(embed.color, 0x1583d1);
    let lost = encounter(Target::AiDark, false, &[(0, 5744)]);
    let embed = Embed::from_log("link", &lost);
    assert_eq!(embed.title, "Ai, Keeper of the Peak (Dark)");
    assert_eq!(embed.color, 0xd13e15);
    let made = Embed::new("t".to_string(), "d".to_string(), "u".to_string(), 7);
    assert_eq!((made.title.as_str(), made.description.as_str(), made.url.as_str(), made.color), ("t", "d", "u", 7));
}

fn infos() -> Vec<LogInfo> {
    vec![
        LogInfo::new("https://a/1".to_string(), encounter(Target::Skor, true, &[(0, 147_053), (0, 11_975)])),
        LogInfo::new("https://a/2".to_string(), encounter(Target::Arkk, false, &[(5, 5749)])),
    ]
}

#[test]
fn a_text_message_has_a_line_for_each_encounter() {
    let text = TextGenerator {}.generate(&infos());
    assert_eq!(
        text.content,
        "\nhttps://a/1 - **Success** in 2:27.05\nhttps://a/2 - **Defeat** in 5.74s"
    );
    assert_eq!(text.username, "snek");
    assert_eq!(text.avatar_url, "https://i.imgur.com/IizO35l.png");
    assert_eq!(text.plain(), "\nhttps://a/1 - Success in 2:27.05\nhttps://a/2 - Defeat in 5.74s");
    assert_eq!(TextGenerator {}.generate(&[]).content, "");
}

#[test]
fn a_webhook_message_has_an_embed_for_each_encounter() {
    let message = WebhookGenerator {}.generate(&infos());
    assert_eq!(message.content, "");
    assert_eq!(message.username, "snek");
    assert_eq!(message.avatar_url, "https://i.imgur.com/IizO35l.png");
    assert_eq!(message.embeds.len(), 2);
    assert_eq!(message.embeds[0].title, "Skorvald the Shattered");
    assert_eq!(message.embeds[0].url, "https://a/1");
    assert_eq!(message.embeds[1].title, "Arkk");
    assert_eq!(message.embeds[1].description, "**Defeat** in 5.744s\nPhases - ");
    assert_eq!(
        message.with_content("Dailies *done*").plain(),
        "Dailies *done*\nSkorvald the Shattered (https://a/1)\nSuccess in 2:27.053\nPhases - 1: 11.97s\n\nArkk (https://a/2)\nDefeat in 5.744s\nPhases - \n"
    );
    assert!(WebhookGenerator {}.generate(&[]).embeds.is_empty());
}

#[test]
fn a_webhook_message_is_built_up() {
    let blank = Webhook::new();
    assert_eq!((blank.content.as_str(), blank.username.as_str(), blank.embeds.len()), ("", "snek", 0));
    assert_eq!(blank.plain(), "");
    let same = Webhook::default();
    assert_eq!((same.content.as_str(), same.avatar_url.as_str()), ("", "https://i.imgur.com/IizO35l.png"));
    let one = Webhook::from_data("l", &encounter(Target::Golem, true, &[(0, 1000)]));
    assert_eq!(one.embeds.len(), 1);
    assert_eq!(one.embeds[0].title, "Standard Kitty Golem");
    let two = one
        .with_content("hello")
        .add_embed(Embed::new("T".to_string(), "**D**".to_string(), "U".to_string(), 1));
    assert_eq!(two.content, "hello");
    assert_eq!(two.embeds.len(), 2);
    assert_eq!(two.embeds[1].title, "T");
    assert_eq!(
        two.plain(),
        "hello\nStandard Kitty Golem (l)\nSuccess in 1.000s\nPhases - \n\nT (U)\nD\n"
    );
}

#[test]
fn short_attempts_are_filtered_out() {
    let length = Length {};
    assert!(!length.filter(&encounter(Target::Mama, false, &[(0, 5000), (0, 5000)])));
    assert!(length.filter(&encounter(Target::Mama, false, &[(0, 5001), (0, 5001)])));
    assert!(length.filter(&encounter(Target::Mama, false, &[(0, 100), (0, 50), (60, 100)])));
    assert!(!length.filter(&encounter(Target::Mama, true, &[(7000, 12_000)])));
    assert!(!length.filter(&encounter(Target::Mama, true, &[])));
    let lost = Unsuccessful {};
    assert!(lost.filter(&encounter(Target::Mama, false, &[(0, 1)])));
    assert!(!lost.filter(&encounter(Target::Mama, true, &[(0, 1)])));
}

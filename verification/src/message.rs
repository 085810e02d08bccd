//! What is told about an encounter, as text and as a Discord webhook
//! message.

use crate::parse::phase::PhaseView;
use crate::parse::{Encounter, EncounterView, Phase};
use crate::target::Target;
use crate::text::{decimal, padded, push_decimal, push_padded, remove_all, without};
use vstd::prelude::*;
use vstd::string::*;

verus! {

/// How long `phase` lasts.
pub open spec fn span(phase: PhaseView) -> u64 {
    (phase.end - phase.start) as u64
}

/// A time as minutes, seconds and hundredths, `1:02.03`, or below a
/// minute as seconds and hundredths, `2.03s`.
pub open spec fn spec_fmt_time2(time: u64) -> Seq<char> {
    if time >= 60000 {
        decimal((time / 60000) as nat) + ":"@ + padded(((time % 60000) / 1000) as nat, 2) + "."@
            + padded(((time % 1000) / 10) as nat, 2)
    } else {
        decimal((time / 1000) as nat) + "."@ + padded(((time % 1000) / 10) as nat, 2) + "s"@
    }
}

/// A time as minutes, seconds and thousandths, `1:02.003`, or below a
/// minute as seconds and thousandths, `2.003s`.
pub open spec fn spec_fmt_time3(time: u64) -> Seq<char> {
    if time >= 60000 {
        decimal((time / 60000) as nat) + ":"@ + padded(((time % 60000) / 1000) as nat, 2) + "."@
            + padded((time % 1000) as nat, 3)
    } else {
        decimal((time / 1000) as nat) + "."@ + padded((time % 1000) as nat, 3) + "s"@
    }
}

pub fn fmt_time2(time: u64) -> (s: String)
    ensures
        s@ == spec_fmt_time2(time),
{
    let mut s = String::new();
    if time >= 60000 {
        push_decimal(&mut s, time / 60000);
        s.append(":");
        push_padded(&mut s, (time % 60000) / 1000, 2);
        s.append(".");
        push_padded(&mut s, (time % 1000) / 10, 2);
    } else {
        push_decimal(&mut s, time / 1000);
        s.append(".");
        push_padded(&mut s, (time % 1000) / 10, 2);
        s.append("s");
    }
    assert(s@ =~= spec_fmt_time2(time));
    s
}

pub fn fmt_time3(time: u64) -> (s: String)
    ensures
        s@ == spec_fmt_time3(time),
{
    let mut s = String::new();
    if time >= 60000 {
        push_decimal(&mut s, time / 60000);
        s.append(":");
        push_padded(&mut s, (time % 60000) / 1000, 2);
        s.append(".");
        push_padded(&mut s, time % 1000, 3);
    } else {
        push_decimal(&mut s, time / 1000);
        s.append(".");
        push_padded(&mut s, time % 1000, 3);
        s.append("s");
    }
    assert(s@ =~= spec_fmt_time3(time));
    s
}

/// The word for how the encounter went.
pub open spec fn outcome_word(success: bool) -> Seq<char> {
    if success {
        "Success"@
    } else {
        "Defeat"@
    }
}

pub fn outcome_str(success: bool) -> (s: &'static str)
    ensures
        s@ == outcome_word(success),
{
    if success {
        "Success"
    } else {
        "Defeat"
    }
}

/// The line that says how the encounter went and how long it took.
pub open spec fn spec_status_msg(encounter: EncounterView) -> Seq<char> {
    "**"@ + outcome_word(encounter.success) + "** in "@ + spec_fmt_time3(span(encounter.phases[0]))
}

pub fn status_msg(encounter: &Encounter) -> (s: String)
    requires
        encounter.wf(),
    ensures
        s@ == spec_status_msg(encounter@),
{
    let mut s = String::new();
    s.append("**");
    s.append(outcome_str(encounter.success));
    s.append("** in ");
    let duration = fmt_time3(encounter.phases[0].duration());
    s.append(duration.as_str());
    assert(s@ =~= spec_status_msg(encounter@));
    s
}

/// How many of the phases are listed as phases. Of Siax the last one of
/// four or five phases, and the last two of six, are splits.
pub open spec fn listed_count(encounter: EncounterView) -> nat {
    let n = encounter.phases.len();
    if encounter.target == Target::Siax {
        if n == 4 {
            3
        } else if n == 5 || n == 6 {
            4
        } else {
            n
        }
    } else {
        n
    }
}

/// What precedes the time of a listed phase: its name, or else its number.
pub open spec fn phase_label(phase: PhaseView, idx: nat) -> Seq<char> {
    match phase.name {
        Some(name) => name,
        None => decimal(idx),
    }
}

/// The `idx`-th phase of `listed`, as listed: label and time, the time in
/// bold; but the time of the last phase of a lost encounter in italics.
/// A separator follows all but the last.
pub open spec fn phase_entry(phase: PhaseView, idx: nat, listed: nat, success: bool) -> Seq<char> {
    let last = idx + 1 == listed;
    let mark = if last && !success {
        "*"@
    } else {
        "**"@
    };
    let sep = if last {
        Seq::empty()
    } else {
        " - "@
    };
    phase_label(phase, idx) + ": "@ + mark + spec_fmt_time2(span(phase)) + mark + sep
}

/// What opens the line of phases; nothing where the phases are named.
pub open spec fn phase_line_start(encounter: EncounterView) -> Seq<char> {
    if encounter.phases[0].name is Some {
        Seq::empty()
    } else {
        "Phases - "@
    }
}

/// The line of phases up to, not including, phase `n`. Phase 0, the whole
/// encounter, is not listed.
pub open spec fn phase_line(encounter: EncounterView, n: nat) -> Seq<char>
    decreases n,
{
    if n <= 1 {
        phase_line_start(encounter)
    } else {
        phase_line(encounter, (n - 1) as nat) + phase_entry(
            encounter.phases[n - 1],
            (n - 1) as nat,
            listed_count(encounter),
            encounter.success,
        )
    }
}

/// The `k`-th split, as listed: its number from 1 and its time in bold,
/// after a separator unless it is the first.
pub open spec fn split_entry(phase: PhaseView, k: nat) -> Seq<char> {
    (if k > 0 {
        " - "@
    } else {
        Seq::empty()
    }) + decimal(k + 1) + ": **"@ + spec_fmt_time2(span(phase)) + "**"@
}

/// The line of the first `k` splits.
pub open spec fn splits_line(encounter: EncounterView, k: nat) -> Seq<char>
    decreases k,
{
    if k == 0 {
        "\nSplits - "@
    } else {
        splits_line(encounter, (k - 1) as nat) + split_entry(
            encounter.phases[listed_count(encounter) + k - 1],
            (k - 1) as nat,
        )
    }
}

/// The description of an encounter: the status line, the line of phases,
/// and the line of splits where there are splits.
pub open spec fn spec_describe(encounter: EncounterView) -> Seq<char> {
    let listed = listed_count(encounter);
    let n = encounter.phases.len();
    spec_status_msg(encounter) + "\n"@ + phase_line(encounter, listed) + (if n > listed {
        splits_line(encounter, (n - listed) as nat)
    } else {
        Seq::empty()
    })
}

/// How many of the phases of `encounter` are listed as phases.
pub fn count_listed(encounter: &Encounter) -> (listed: usize)
    ensures
        listed == listed_count(encounter@),
        listed <= encounter.phases@.len(),
{
    let n: usize = encounter.phases.len();
    if encounter.target == Target::Siax {
        if n == 4 {
            3
        } else if n == 5 || n == 6 {
            4
        } else {
            n
        }
    } else {
        n
    }
}

/// Appends the `idx`-th of `listed` phases as it is listed.
pub fn push_phase_entry(line: &mut String, phase: &Phase, idx: usize, listed: usize, success: bool)
    ensures
        final(line)@ == old(line)@ + phase_entry(phase@, idx as nat, listed as nat, success),
{
    let last: bool = listed > 0 && idx == listed - 1;
    let mark: &str = if last && !success {
        "*"
    } else {
        "**"
    };
    match phase.name() {
        Some(name) => line.append(name.as_str()),
        None => push_decimal(line, idx as u64),
    }
    line.append(": ");
    line.append(mark);
    let time = fmt_time2(phase.duration());
    line.append(time.as_str());
    line.append(mark);
    if !last {
        line.append(" - ");
    }
    assert(line@ =~= old(line)@ + phase_entry(phase@, idx as nat, listed as nat, success));
}

/// Appends the `k`-th split as it is listed.
pub fn push_split_entry(line: &mut String, phase: &Phase, k: usize)
    requires
        k < usize::MAX,
    ensures
        final(line)@ == old(line)@ + split_entry(phase@, k as nat),
{
    if k > 0 {
        line.append(" - ");
    }
    push_decimal(line, k as u64 + 1);
    line.append(": **");
    let time = fmt_time2(phase.duration());
    line.append(time.as_str());
    line.append("**");
    assert(line@ =~= old(line)@ + split_entry(phase@, k as nat));
}

/// The line of the listed phases of `encounter`.
pub fn list_phases(encounter: &Encounter) -> (line: String)
    requires
        encounter.wf(),
    ensures
        line@ == phase_line(encounter@, listed_count(encounter@)),
{
    let listed: usize = count_listed(encounter);
    let mut line = String::new();
    if encounter.phases[0].name().is_none() {
        line.append("Phases - ");
    }
    assert(line@ =~= phase_line_start(encounter@));
    let mut idx: usize = 1;
    while idx < listed
        invariant
            1 <= idx <= listed || (idx == 1 && listed <= 1),
            listed <= encounter.phases@.len(),
            listed == listed_count(encounter@),
            line@ == phase_line(encounter@, idx as nat),
        decreases listed - idx,
    {
        push_phase_entry(&mut line, &encounter.phases[idx], idx, listed, encounter.success);
        idx += 1;
    }
    line
}

/// The line of the splits of `encounter`, which has splits.
pub fn list_splits(encounter: &Encounter) -> (line: String)
    requires
        listed_count(encounter@) < encounter.phases@.len(),
    ensures
        line@ == splits_line(
            encounter@,
            (encounter.phases@.len() - listed_count(encounter@)) as nat,
        ),
{
    let n: usize = encounter.phases.len();
    let listed: usize = count_listed(encounter);
    let mut line = String::new();
    line.append("\nSplits - ");
    let mut k: usize = 0;
    while k < n - listed
        invariant
            k <= n - listed,
            listed < n,
            n == encounter.phases@.len(),
            listed == listed_count(encounter@),
            line@ == splits_line(encounter@, k as nat),
        decreases n - listed - k,
    {
        push_split_entry(&mut line, &encounter.phases[listed + k], k);
        k += 1;
    }
    line
}

pub fn describe(encounter: &Encounter) -> (s: String)
    requires
        encounter.wf(),
    ensures
        s@ == spec_describe(encounter@),
{
    let mut s = status_msg(encounter);
    s.append("\n");
    let phases = list_phases(encounter);
    s.append(phases.as_str());
    if encounter.phases.len() > count_listed(encounter) {
        let splits = list_splits(encounter);
        s.append(splits.as_str());
    }
    assert(s@ =~= spec_describe(encounter@));
    s
}

/// The colour that marks a win.
pub const WON: u32 = 0x15_83_d1;

/// The colour that marks a defeat.
pub const LOST: u32 = 0xd1_3e_15;

/// One encounter in a webhook message.
#[derive(Debug)]
pub struct Embed {
    pub title: String,
    pub description: String,
    pub url: String,
    pub color: u32,
}

/// An `Embed` as plain values.
pub struct EmbedView {
    pub title: Seq<char>,
    pub description: Seq<char>,
    pub url: Seq<char>,
    pub color: u32,
}

impl View for Embed {
    type V = EmbedView;

    open spec fn view(&self) -> EmbedView {
        EmbedView {
            title: self.title@,
            description: self.description@,
            url: self.url@,
            color: self.color,
        }
    }
}

/// The embed for an encounter whose log was uploaded to `link`.
pub open spec fn spec_embed(link: Seq<char>, encounter: EncounterView) -> EmbedView {
    EmbedView {
        title: encounter.target.spec_display_name(),
        description: spec_describe(encounter),
        url: link,
        color: if encounter.success {
            WON
        } else {
            LOST
        },
    }
}

impl Embed {
    pub fn new(title: String, description: String, url: String, color: u32) -> (embed: Embed)
        ensures
            embed@ == (EmbedView { title: title@, description: description@, url: url@, color }),
    {
        Embed { title, description, url, color }
    }

    pub fn from_log(link: &str, encounter: &Encounter) -> (embed: Embed)
        requires
            encounter.wf(),
        ensures
            embed@ == spec_embed(link@, encounter@),
    {
        let color: u32 = if encounter.success {
            WON
        } else {
            LOST
        };
        Embed::new(
            String::from_str(encounter.target.display_name()),
            describe(encounter),
            String::from_str(link),
            color,
        )
    }
}

/// An encounter together with the link that its log was uploaded to.
#[derive(Debug)]
pub struct LogInfo {
    pub link: String,
    pub encounter: Encounter,
}

impl LogInfo {
    pub fn new(link: String, encounter: Encounter) -> (info: LogInfo)
        ensures
            info.link == link,
            info.encounter == encounter,
    {
        LogInfo { link, encounter }
    }
}

/// Whether every encounter of `logs` has its first phase.
pub open spec fn all_wf(logs: Seq<LogInfo>) -> bool {
    forall|i: int| 0 <= i < logs.len() ==> (#[trigger] logs[i]).encounter.wf()
}

/// A message in plain text.
#[derive(Debug)]
pub struct Text {
    pub username: String,
    pub avatar_url: String,
    pub content: String,
}

/// A message with one embed for each encounter.
#[derive(Debug)]
pub struct Webhook {
    pub content: String,
    pub username: String,
    pub avatar_url: String,
    pub embeds: Vec<Embed>,
}

/// The embeds of a list as plain values.
pub open spec fn embed_views(embeds: Seq<Embed>) -> Seq<EmbedView> {
    Seq::new(embeds.len(), |i: int| embeds[i]@)
}

/// What makes a message from the encounters to tell about.
pub trait Generator {
    type Message;

    fn generate(&self, logs: &[LogInfo]) -> Self::Message
        requires
            all_wf(logs@),
    ;
}

pub struct TextGenerator {}

pub struct WebhookGenerator {}

/// The line of a text message for one encounter: the link, how the
/// encounter went, and how long it took.
pub open spec fn text_line(link: Seq<char>, encounter: EncounterView) -> Seq<char> {
    "\n"@ + link + " - **"@ + outcome_word(encounter.success) + "** in "@ + spec_fmt_time2(
        span(encounter.phases[0]),
    )
}

/// The lines of a text message for the first `n` of `logs`.
pub open spec fn text_lines(logs: Seq<LogInfo>, n: nat) -> Seq<char>
    decreases n,
{
    if n == 0 {
        Seq::empty()
    } else {
        text_lines(logs, (n - 1) as nat) + text_line(logs[n - 1].link@, logs[n - 1].encounter@)
    }
}

/// The embeds for `logs`, one each, in order.
pub open spec fn spec_embeds(logs: Seq<LogInfo>) -> Seq<EmbedView> {
    Seq::new(logs.len(), |i: int| spec_embed(logs[i].link@, logs[i].encounter@))
}

impl Generator for TextGenerator {
    type Message = Text;

    fn generate(&self, logs: &[LogInfo]) -> (text: Text)
        ensures
            text.content@ == text_lines(logs@, logs@.len()),
            text.username@ == "snek"@,
            text.avatar_url@ == "https://i.imgur.com/IizO35l.png"@,
    {
        let mut content = String::new();
        let mut i: usize = 0;
        while i < logs.len()
            invariant
                i <= logs@.len(),
                all_wf(logs@),
                content@ == text_lines(logs@, i as nat),
            decreases logs@.len() - i,
        {
            let log: &LogInfo = &logs[i];
            let ghost before = content@;
            content.append("\n");
            content.append(log.link.as_str());
            content.append(" - **");
            content.append(outcome_str(log.encounter.success));
            content.append("** in ");
            let duration = fmt_time2(log.encounter.phases[0].duration());
            content.append(duration.as_str());
            assert(content@ =~= before + text_line(log.link@, log.encounter@));
            i += 1;
        }
        Text {
            content,
            username: String::from_str("snek"),
            avatar_url: String::from_str("https://i.imgur.com/IizO35l.png"),
        }
    }
}

impl Generator for WebhookGenerator {
    type Message = Webhook;

    fn generate(&self, logs: &[LogInfo]) -> (message: Webhook)
        ensures
            embed_views(message.embeds@) == spec_embeds(logs@),
            message.content@ == Seq::<char>::empty(),
            message.username@ == "snek"@,
            message.avatar_url@ == "https://i.imgur.com/IizO35l.png"@,
    {
        let mut message = Webhook::new();
        let mut i: usize = 0;
        assert(embed_views(message.embeds@) =~= Seq::new(
            0,
            |i: int| spec_embed(logs@[i].link@, logs@[i].encounter@),
        ));
        while i < logs.len()
            invariant
                i <= logs@.len(),
                all_wf(logs@),
                message.content@ == Seq::<char>::empty(),
                message.username@ == "snek"@,
                message.avatar_url@ == "https://i.imgur.com/IizO35l.png"@,
                embed_views(message.embeds@) == Seq::new(
                    i as nat,
                    |i: int| spec_embed(logs@[i].link@, logs@[i].encounter@),
                ),
            decreases logs@.len() - i,
        {
            let log: &LogInfo = &logs[i];
            let ghost before = message.embeds@;
            message = message.add_embed(Embed::from_log(log.link.as_str(), &log.encounter));
            assert(embed_views(message.embeds@) =~= embed_views(before).push(
                spec_embed(log.link@, log.encounter@),
            ));
            assert(embed_views(message.embeds@) =~= Seq::new(
                (i + 1) as nat,
                |i: int| spec_embed(logs@[i].link@, logs@[i].encounter@),
            ));
            i += 1;
        }
        message
    }
}

impl Text {
    /// The message as it reads without emphasis: the content without the
    /// asterisks.
    pub fn plain(&self) -> (s: String)
        ensures
            s@ == without(self.content@, '*'),
    {
        remove_all(self.content.as_str(), '*')
    }
}

/// An embed as it reads in plain text: a blank line, title and link, and
/// the description without emphasis.
pub open spec fn embed_text(embed: EmbedView) -> Seq<char> {
    "\n"@ + embed.title + " ("@ + embed.url + ")\n"@ + without(embed.description, '*') + "\n"@
}

/// The first `n` embeds as they read in plain text.
pub open spec fn embeds_text(embeds: Seq<Embed>, n: nat) -> Seq<char>
    decreases n,
{
    if n == 0 {
        Seq::empty()
    } else {
        embeds_text(embeds, (n - 1) as nat) + embed_text(embeds[n - 1]@)
    }
}

impl Webhook {
    /// A message with no content and no embeds, under the sender's name
    /// and picture.
    pub fn new() -> (message: Webhook)
        ensures
            message.content@ == Seq::<char>::empty(),
            message.username@ == "snek"@,
            message.avatar_url@ == "https://i.imgur.com/IizO35l.png"@,
            message.embeds@ == Seq::<Embed>::empty(),
    {
        Webhook {
            content: String::new(),
            username: String::from_str("snek"),
            avatar_url: String::from_str("https://i.imgur.com/IizO35l.png"),
            embeds: Vec::new(),
        }
    }

    /// The message that tells about one encounter.
    pub fn from_data(link: &str, encounter: &Encounter) -> (message: Webhook)
        requires
            encounter.wf(),
        ensures
            embed_views(message.embeds@) == seq![spec_embed(link@, encounter@)],
            message.content@ == Seq::<char>::empty(),
            message.username@ == "snek"@,
            message.avatar_url@ == "https://i.imgur.com/IizO35l.png"@,
    {
        let message = Webhook::new().add_embed(Embed::from_log(link, encounter));
        assert(embed_views(message.embeds@) =~= seq![spec_embed(link@, encounter@)]);
        message
    }

    pub fn with_content(self, content: &str) -> (message: Webhook)
        ensures
            message.content@ == content@,
            message.username == self.username,
            message.avatar_url == self.avatar_url,
            message.embeds == self.embeds,
    {
        let mut message = self;
        message.content = String::from_str(content);
        message
    }

    pub fn add_embed(self, embed: Embed) -> (message: Webhook)
        ensures
            message.embeds@ == self.embeds@.push(embed),
            message.content == self.content,
            message.username == self.username,
            message.avatar_url == self.avatar_url,
    {
        let mut message = self;
        message.embeds.push(embed);
        message
    }

    /// The message as it reads in plain text: the content, then each
    /// embed.
    pub fn plain(&self) -> (s: String)
        ensures
            s@ == self.content@ + embeds_text(self.embeds@, self.embeds@.len()),
    {
        let mut s = self.content.clone();
        let mut i: usize = 0;
        assert(s@ =~= self.content@ + embeds_text(self.embeds@, 0));
        while i < self.embeds.len()
            invariant
                i <= self.embeds@.len(),
                s@ == self.content@ + embeds_text(self.embeds@, i as nat),
            decreases self.embeds@.len() - i,
        {
            let embed: &Embed = &self.embeds[i];
            s.append("\n");
            s.append(embed.title.as_str());
            s.append(" (");
            s.append(embed.url.as_str());
            s.append(")\n");
            let description = remove_all(embed.description.as_str(), '*');
            s.append(description.as_str());
            s.append("\n");
            assert(s@ =~= self.content@ + (embeds_text(self.embeds@, i as nat) + embed_text(
                embed@,
            )));
            i += 1;
        }
        s
    }
}

impl Default for Webhook {
    fn default() -> (message: Webhook)
        ensures
            message.content@ == Seq::<char>::empty(),
            message.username@ == "snek"@,
            message.avatar_url@ == "https://i.imgur.com/IizO35l.png"@,
            message.embeds@ == Seq::<Embed>::empty(),
    {
        Webhook::new()
    }
}

} // verus!

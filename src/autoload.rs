use vstd::prelude::*;
use crate::envelope::FileResult;
use crate::json::JsonValue;
use crate::settings::{parse_settings, settings_of};

verus! {

/// How long the loader waits, in milliseconds, before it asks the front-end
/// to open the project, so that the front-end has time to come up.
pub const AUTO_LOAD_DELAY_MS: u64 = 1500;

/// Where the startup auto-loader stands.
pub enum Phase {
    Idle,
    ReadingSettings,
    ParsingSettings,
    CheckingProject(String),
    Waiting(String),
    Finished,
}

/// What the surrounding runtime reports back to the loader.
pub enum Event {
    /// The application has begun to start.
    Started,
    /// The settings file was read, or failed to read.
    SettingsRead(FileResult),
    /// The settings text was parsed as JSON, or did not parse (`None`).
    SettingsParsed(Option<JsonValue>),
    /// Whether the remembered project exists on disk.
    ProjectChecked(bool),
    /// The wait before the notification is over.
    DelayElapsed,
}

/// What the loader asks the surrounding runtime to do next.
pub enum Step {
    ReadSettings,
    ParseSettings(String),
    CheckProject(String),
    Wait(u64),
    /// Send the front-end the one notification to open this project.
    Emit(String),
    Nothing,
}

pub enum PhaseView {
    Idle,
    ReadingSettings,
    ParsingSettings,
    CheckingProject(Seq<char>),
    Waiting(Seq<char>),
    Finished,
}

pub enum StepView {
    ReadSettings,
    ParseSettings(Seq<char>),
    CheckProject(Seq<char>),
    Wait(nat),
    Emit(Seq<char>),
    Nothing,
}

impl View for Phase {
    type V = PhaseView;

    open spec fn view(&self) -> PhaseView {
        match self {
            Phase::Idle => PhaseView::Idle,
            Phase::ReadingSettings => PhaseView::ReadingSettings,
            Phase::ParsingSettings => PhaseView::ParsingSettings,
            Phase::CheckingProject(p) => PhaseView::CheckingProject(p@),
            Phase::Waiting(p) => PhaseView::Waiting(p@),
            Phase::Finished => PhaseView::Finished,
        }
    }
}

impl View for Step {
    type V = StepView;

    open spec fn view(&self) -> StepView {
        match self {
            Step::ReadSettings => StepView::ReadSettings,
            Step::ParseSettings(t) => StepView::ParseSettings(t@),
            Step::CheckProject(p) => StepView::CheckProject(p@),
            Step::Wait(ms) => StepView::Wait(*ms as nat),
            Step::Emit(p) => StepView::Emit(p@),
            Step::Nothing => StepView::Nothing,
        }
    }
}

/// The project that a parsed settings document remembers, if it reads as
/// settings at all.
pub open spec fn remembered_project(doc: Option<JsonValue>) -> Option<Seq<char>> {
    match doc {
        Some(d) => match settings_of(d) {
            Some((_, Some(p))) => Some(p),
            _ => None,
        },
        None => None,
    }
}

/// One transition: the phase after `e` in phase `p`, and what to do.
/// An event that the phase does not wait for changes nothing.
pub open spec fn next(p: PhaseView, e: Event) -> (PhaseView, StepView) {
    match (p, e) {
        (PhaseView::Idle, Event::Started) => (PhaseView::ReadingSettings, StepView::ReadSettings),
        (PhaseView::ReadingSettings, Event::SettingsRead(f)) => match f.data {
            Some(text) => if f.success {
                (PhaseView::ParsingSettings, StepView::ParseSettings(text@))
            } else {
                (PhaseView::Finished, StepView::Nothing)
            },
            None => (PhaseView::Finished, StepView::Nothing),
        },
        (PhaseView::ParsingSettings, Event::SettingsParsed(doc)) => match remembered_project(doc) {
            Some(path) => (PhaseView::CheckingProject(path), StepView::CheckProject(path)),
            None => (PhaseView::Finished, StepView::Nothing),
        },
        (PhaseView::CheckingProject(path), Event::ProjectChecked(exists)) => if exists {
            (PhaseView::Waiting(path), StepView::Wait(AUTO_LOAD_DELAY_MS as nat))
        } else {
            (PhaseView::Finished, StepView::Nothing)
        },
        (PhaseView::Waiting(path), Event::DelayElapsed) => (PhaseView::Finished, StepView::Emit(path)),
        _ => (p, StepView::Nothing),
    }
}

/// The projects that the loader asks to open, in order, when it meets the
/// events `evs` in phase `p`.
pub open spec fn emissions(p: PhaseView, evs: Seq<Event>) -> Seq<Seq<char>>
    decreases evs.len(),
{
    if evs.len() == 0 {
        Seq::empty()
    } else {
        let (q, s) = next(p, evs[0]);
        let here = match s {
            StepView::Emit(path) => seq![path],
            _ => Seq::empty(),
        };
        here + emissions(q, evs.drop_first())
    }
}

/// Whatever events come, the loader asks at most once to open a project,
/// and never once it has finished.
pub proof fn lemma_at_most_one_emission(p: PhaseView, evs: Seq<Event>)
    ensures
        emissions(p, evs).len() <= 1,
        p == PhaseView::Finished ==> emissions(p, evs).len() == 0,
    decreases evs.len(),
{
    if evs.len() > 0 {
        let (q, s) = next(p, evs[0]);
        lemma_at_most_one_emission(q, evs.drop_first());
    }
}

/// The events of a start in which the settings read, parse as `doc`, and
/// the remembered project's existence check answers `exists`.
pub open spec fn start_events(read: FileResult, doc: JsonValue, exists: bool) -> Seq<Event> {
    seq![
        Event::Started,
        Event::SettingsRead(read),
        Event::SettingsParsed(Some(doc)),
        Event::ProjectChecked(exists),
        Event::DelayElapsed,
    ]
}

/// Unfolds the loader over a start whose settings read and remember `path`.
proof fn lemma_unfold_start(
    read: FileResult,
    doc: JsonValue,
    exists: bool,
    rest: Seq<Event>,
    text: Seq<char>,
    path: Seq<char>,
)
    requires
        read.success,
        read.data matches Some(t) && t@ == text,
        remembered_project(Some(doc)) == Some(path),
    ensures
        emissions(PhaseView::Idle, start_events(read, doc, exists) + rest) == (if exists {
            seq![path] + emissions(PhaseView::Finished, rest)
        } else {
            emissions(PhaseView::Finished, seq![Event::DelayElapsed] + rest)
        }),
{
    let evs = start_events(read, doc, exists) + rest;
    let e1 = evs.drop_first();
    let e2 = e1.drop_first();
    let e3 = e2.drop_first();
    let e4 = e3.drop_first();
    let e5 = e4.drop_first();
    assert(e1 =~= seq![
        Event::SettingsRead(read),
        Event::SettingsParsed(Some(doc)),
        Event::ProjectChecked(exists),
        Event::DelayElapsed,
    ] + rest);
    assert(e2 =~= seq![
        Event::SettingsParsed(Some(doc)),
        Event::ProjectChecked(exists),
        Event::DelayElapsed,
    ] + rest);
    assert(e3 =~= seq![Event::ProjectChecked(exists), Event::DelayElapsed] + rest);
    assert(e4 =~= seq![Event::DelayElapsed] + rest);
    assert(e5 =~= rest);
    assert(emissions(PhaseView::Idle, evs) =~= emissions(PhaseView::ReadingSettings, e1));
    assert(emissions(PhaseView::ReadingSettings, e1) =~= emissions(PhaseView::ParsingSettings, e2));
    assert(emissions(PhaseView::ParsingSettings, e2) =~= emissions(
        PhaseView::CheckingProject(path),
        e3,
    ));
    if exists {
        assert(emissions(PhaseView::CheckingProject(path), e3) =~= emissions(
            PhaseView::Waiting(path),
            e4,
        ));
        assert(emissions(PhaseView::Waiting(path), e4) =~= seq![path] + emissions(
            PhaseView::Finished,
            e5,
        ));
    } else {
        assert(emissions(PhaseView::CheckingProject(path), e3) =~= emissions(
            PhaseView::Finished,
            e4,
        ));
    }
}

/// When the settings read, remember a project, and that project exists,
/// the loader asks exactly once to open it, whatever events follow.
pub proof fn lemma_existing_project_emitted_once(
    read: FileResult,
    doc: JsonValue,
    rest: Seq<Event>,
)
    requires
        read.success,
        read.data.is_some(),
        remembered_project(Some(doc)).is_some(),
    ensures
        emissions(PhaseView::Idle, start_events(read, doc, true) + rest) == seq![
            remembered_project(Some(doc)).unwrap(),
        ],
{
    let path = remembered_project(Some(doc)).unwrap();
    lemma_unfold_start(read, doc, true, rest, read.data.unwrap()@, path);
    lemma_at_most_one_emission(PhaseView::Finished, rest);
    assert(seq![path] + emissions(PhaseView::Finished, rest) =~= seq![path]);
}

/// When the remembered project does not exist, the loader never asks to
/// open anything, whatever events follow.
pub proof fn lemma_missing_project_not_emitted(read: FileResult, doc: JsonValue, rest: Seq<Event>)
    requires
        read.success,
        read.data.is_some(),
        remembered_project(Some(doc)).is_some(),
    ensures
        emissions(PhaseView::Idle, start_events(read, doc, false) + rest) == Seq::<Seq<char>>::empty(),
{
    let path = remembered_project(Some(doc)).unwrap();
    lemma_unfold_start(read, doc, false, rest, read.data.unwrap()@, path);
    lemma_at_most_one_emission(PhaseView::Finished, seq![Event::DelayElapsed] + rest);
}

/// The startup sequence that reopens the last project.
pub struct AutoLoader {
    phase: Phase,
}

impl View for AutoLoader {
    type V = PhaseView;

    closed spec fn view(&self) -> PhaseView {
        self.phase@
    }
}

impl AutoLoader {
    /// A loader that has not started.
    pub fn new() -> (r: AutoLoader)
        ensures
            r@ == PhaseView::Idle,
    {
        AutoLoader { phase: Phase::Idle }
    }

    /// Whether the sequence is over.
    pub fn is_finished(&self) -> (r: bool)
        ensures
            r == (self@ == PhaseView::Finished),
    {
        match self.phase {
            Phase::Finished => true,
            _ => false,
        }
    }

    /// Takes one event and says what to do next.
    pub fn step(&mut self, e: Event) -> (r: Step)
        ensures
            (final(self)@, r@) == next(old(self)@, e),
    {
        let mut phase = Phase::Finished;
        std::mem::swap(&mut phase, &mut self.phase);
        let (phase, step) = match (phase, e) {
            (Phase::Idle, Event::Started) => (Phase::ReadingSettings, Step::ReadSettings),
            (Phase::ReadingSettings, Event::SettingsRead(f)) => match f.data {
                Some(text) => if f.success {
                    (Phase::ParsingSettings, Step::ParseSettings(text))
                } else {
                    (Phase::Finished, Step::Nothing)
                },
                None => (Phase::Finished, Step::Nothing),
            },
            (Phase::ParsingSettings, Event::SettingsParsed(doc)) => {
                let project = match &doc {
                    Some(d) => match parse_settings(d) {
                        Some(s) => s.last_opened_project,
                        None => None,
                    },
                    None => None,
                };
                match project {
                    Some(path) => {
                        let check = path.clone();
                        (Phase::CheckingProject(path), Step::CheckProject(check))
                    },
                    None => (Phase::Finished, Step::Nothing),
                }
            },
            (Phase::CheckingProject(path), Event::ProjectChecked(exists)) => if exists {
                (Phase::Waiting(path), Step::Wait(AUTO_LOAD_DELAY_MS))
            } else {
                (Phase::Finished, Step::Nothing)
            },
            (Phase::Waiting(path), Event::DelayElapsed) => (Phase::Finished, Step::Emit(path)),
            (p, _) => (p, Step::Nothing),
        };
        self.phase = phase;
        step
    }
}

} // verus!

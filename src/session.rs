//! The interface-selection session: which interface is hovered, which one was
//! chosen, and when probing must start.

use crate::internal_comms::{FetchedDataMessage, NetworkInfo};
use vstd::prelude::*;

verus! {

#[derive(Debug, Clone, Copy, PartialEq, Eq, Structural)]
pub enum ApplicationStage {
    PickInterface,
    Running,
}

impl Default for ApplicationStage {
    fn default() -> (r: ApplicationStage)
        ensures
            r == ApplicationStage::PickInterface,
    {
        ApplicationStage::PickInterface
    }
}

/// A decoded key press.
#[derive(Debug, Clone, Copy, PartialEq, Eq, Structural)]
pub enum Key {
    Char(char),
    Up,
    Down,
    Enter,
    Other,
}

/// The direction of one hover move in the interface list.
#[derive(Debug, Clone, Copy, PartialEq, Eq, Structural)]
pub enum HoverDirection {
    Up,
    Down,
}

/// Why a session could not begin.
#[derive(Debug, Clone, Copy, PartialEq, Eq, Structural)]
pub enum StartupError {
    /// The host reported no network interface at all.
    NoInterfaces,
}

/// The session state together with the aggregated network snapshot.
#[derive(Debug)]
pub struct App {
    exit: bool,
    network_info: NetworkInfo,
    stage: ApplicationStage,
    interface_list: Vec<String>,
    interface_hover_index: usize,
    chosen_interface: Option<String>,
}

/// Abstract state of a session.
pub struct AppView {
    pub exit: bool,
    pub stage: ApplicationStage,
    pub interfaces: Seq<Seq<char>>,
    pub hover: int,
    pub chosen: Option<Seq<char>>,
    pub network_info: NetworkInfo,
}

/// The text of each string, in order.
pub open spec fn texts(v: Seq<String>) -> Seq<Seq<char>> {
    v.map_values(|s: String| s@)
}

pub open spec fn opt_text(o: Option<String>) -> Option<Seq<char>> {
    match o {
        Some(s) => Some(s@),
        None => None,
    }
}

/// The hover index after one move in a list of `len` entries: floored at the
/// first entry and capped at the last.
pub open spec fn moved_hover(hover: int, len: int, direction: HoverDirection) -> int {
    match direction {
        HoverDirection::Up => if hover > 0 { hover - 1 } else { hover },
        HoverDirection::Down => if hover < len - 1 { hover + 1 } else { hover },
    }
}

/// The hover index after a run of moves, applied first to last.
pub open spec fn hover_after(hover: int, len: int, moves: Seq<HoverDirection>) -> int
    decreases moves.len(),
{
    if moves.len() == 0 {
        hover
    } else {
        moved_hover(hover_after(hover, len, moves.drop_last()), len, moves.last())
    }
}

/// Whatever run of moves is made in a non-empty list, the hover index stays
/// on an entry of the list; in a list of one entry it never moves.
pub proof fn lemma_hover_stays_in_bounds(hover: int, len: int, moves: Seq<HoverDirection>)
    requires
        0 <= hover < len,
    ensures
        0 <= hover_after(hover, len, moves) < len,
        len == 1 ==> hover_after(hover, len, moves) == 0,
    decreases moves.len(),
{
    if moves.len() > 0 {
        lemma_hover_stays_in_bounds(hover, len, moves.drop_last());
    }
}

/// The session after one key press: `q` or `Q` ends it, the arrows move the
/// hover and Enter confirms while selecting, and nothing else changes it.
pub open spec fn after_key(v: AppView, key: Key) -> AppView {
    if key == Key::Char('q') || key == Key::Char('Q') {
        AppView { exit: true, ..v }
    } else if v.stage == ApplicationStage::PickInterface {
        if key == Key::Up {
            AppView { hover: moved_hover(v.hover, v.interfaces.len() as int, HoverDirection::Up), ..v }
        } else if key == Key::Down {
            AppView {
                hover: moved_hover(v.hover, v.interfaces.len() as int, HoverDirection::Down),
                ..v
            }
        } else if key == Key::Enter {
            AppView { stage: ApplicationStage::Running, chosen: Some(v.interfaces[v.hover]), ..v }
        } else {
            v
        }
    } else {
        v
    }
}

/// The session after a run of key presses, first to last.
pub open spec fn after_keys(v: AppView, keys: Seq<Key>) -> AppView
    decreases keys.len(),
{
    if keys.len() == 0 {
        v
    } else {
        after_key(after_keys(v, keys.drop_last()), keys.last())
    }
}

/// A running session stays running on the same interface, whatever keys are
/// pressed; with a single interface it is so from the start, so the
/// selection screen is never shown.
pub proof fn lemma_running_stays_running(v: AppView, keys: Seq<Key>)
    requires
        v.stage == ApplicationStage::Running,
    ensures
        after_keys(v, keys).stage == ApplicationStage::Running,
        after_keys(v, keys).chosen == v.chosen,
        after_keys(v, keys).interfaces == v.interfaces,
    decreases keys.len(),
{
    if keys.len() > 0 {
        lemma_running_stays_running(v, keys.drop_last());
    }
}

impl View for App {
    type V = AppView;

    closed spec fn view(&self) -> AppView {
        AppView {
            exit: self.exit,
            stage: self.stage,
            interfaces: texts(self.interface_list@),
            hover: self.interface_hover_index as int,
            chosen: opt_text(self.chosen_interface),
            network_info: self.network_info,
        }
    }
}

impl App {
    /// The session invariant: the list is non-empty, the hover index is on an
    /// entry, and an interface is chosen exactly when the session is running,
    /// namely the hovered one.
    pub open spec fn wf(&self) -> bool {
        let v = self@;
        &&& v.interfaces.len() > 0
        &&& 0 <= v.hover < v.interfaces.len()
        &&& (v.stage == ApplicationStage::Running) == (v.chosen is Some)
        &&& (v.chosen is Some ==> v.chosen->0 == v.interfaces[v.hover])
    }

    /// Starts a session over the interfaces that the host reported.
    ///
    /// With none the session cannot begin. With exactly one it is chosen at
    /// once and the session starts running; the second component then names
    /// the interface that the probes must be launched for. With more, the
    /// session starts by selecting, with the first entry hovered.
    pub fn new(interface_list: Vec<String>) -> (r: Result<(App, Option<String>), StartupError>)
        ensures
            interface_list@.len() == 0 <==> r is Err,
            r is Err ==> r == Err::<(App, Option<String>), _>(StartupError::NoInterfaces),
            r matches Ok((app, spawn)) ==> {
                &&& app.wf()
                &&& app@.interfaces == texts(interface_list@)
                &&& app@.hover == 0
                &&& !app@.exit
                &&& app@.network_info.is_unset()
                &&& if interface_list@.len() == 1 {
                    &&& app@.stage == ApplicationStage::Running
                    &&& app@.chosen == Some(interface_list@[0]@)
                    &&& opt_text(spawn) == Some(interface_list@[0]@)
                } else {
                    &&& app@.stage == ApplicationStage::PickInterface
                    &&& app@.chosen is None
                    &&& spawn is None
                }
            },
    {
        if interface_list.len() == 0 {
            return Err(StartupError::NoInterfaces);
        }
        let single = interface_list.len() == 1;
        let (stage, chosen, spawn) = if single {
            let first = interface_list[0].clone();
            let launch = first.clone();
            (ApplicationStage::Running, Some(first), Some(launch))
        } else {
            (ApplicationStage::PickInterface, None, None)
        };
        let app = App {
            exit: false,
            network_info: NetworkInfo::default(),
            stage,
            interface_list,
            interface_hover_index: 0,
            chosen_interface: chosen,
        };
        Ok((app, spawn))
    }

    /// Moves the hover one entry up or down while selecting; does nothing once
    /// running.
    pub fn move_hover(&mut self, direction: HoverDirection)
        requires
            old(self).wf(),
        ensures
            final(self).wf(),
            old(self)@.stage == ApplicationStage::PickInterface ==> final(self)@ == (AppView {
                hover: moved_hover(old(self)@.hover, old(self)@.interfaces.len() as int, direction),
                ..old(self)@
            }),
            old(self)@.stage == ApplicationStage::Running ==> final(self)@ == old(self)@,
    {
        if self.stage == ApplicationStage::PickInterface {
            match direction {
                HoverDirection::Up => {
                    if self.interface_hover_index > 0 {
                        self.interface_hover_index = self.interface_hover_index - 1;
                    }
                },
                HoverDirection::Down => {
                    if self.interface_hover_index < self.interface_list.len() - 1 {
                        self.interface_hover_index = self.interface_hover_index + 1;
                    }
                },
            }
        }
    }

    /// Chooses the hovered interface and starts running; the result names the
    /// interface that the probes must be launched for. Once running this does
    /// nothing and launches nothing.
    pub fn confirm(&mut self) -> (spawn: Option<String>)
        requires
            old(self).wf(),
        ensures
            final(self).wf(),
            old(self)@.stage == ApplicationStage::PickInterface ==> {
                &&& final(self)@ == (AppView {
                    stage: ApplicationStage::Running,
                    chosen: Some(old(self)@.interfaces[old(self)@.hover]),
                    ..old(self)@
                })
                &&& opt_text(spawn) == Some(old(self)@.interfaces[old(self)@.hover])
            },
            old(self)@.stage == ApplicationStage::Running ==> final(self)@ == old(self)@
                && spawn is None,
    {
        if self.stage == ApplicationStage::Running {
            return None;
        }
        let chosen = self.interface_list[self.interface_hover_index].clone();
        let launch = chosen.clone();
        self.chosen_interface = Some(chosen);
        self.stage = ApplicationStage::Running;
        Some(launch)
    }

    /// Asks the session to end.
    pub fn exit(&mut self)
        requires
            old(self).wf(),
        ensures
            final(self).wf(),
            final(self)@ == (AppView { exit: true, ..old(self)@ }),
    {
        self.exit = true;
    }

    /// Acts on one key press: `q` or `Q` ends the session, the arrows move
    /// the hover, Enter confirms, and every other key is ignored. The result
    /// names the interface that the probes must be launched for, if any.
    pub fn handle_key_event(&mut self, key: Key) -> (spawn: Option<String>)
        requires
            old(self).wf(),
        ensures
            final(self).wf(),
            final(self)@ == after_key(old(self)@, key),
            key == Key::Char('q') || key == Key::Char('Q') ==> final(self)@ == (AppView {
                exit: true,
                ..old(self)@
            }) && spawn is None,
            key == Key::Up && old(self)@.stage == ApplicationStage::PickInterface ==> final(self)@
                == (AppView {
                hover: moved_hover(
                    old(self)@.hover,
                    old(self)@.interfaces.len() as int,
                    HoverDirection::Up,
                ),
                ..old(self)@
            }) && spawn is None,
            key == Key::Down && old(self)@.stage == ApplicationStage::PickInterface ==> final(self)@
                == (AppView {
                hover: moved_hover(
                    old(self)@.hover,
                    old(self)@.interfaces.len() as int,
                    HoverDirection::Down,
                ),
                ..old(self)@
            }) && spawn is None,
            key == Key::Enter && old(self)@.stage == ApplicationStage::PickInterface
                ==> final(self)@ == (AppView {
                stage: ApplicationStage::Running,
                chosen: Some(old(self)@.interfaces[old(self)@.hover]),
                ..old(self)@
            }) && opt_text(spawn) == Some(old(self)@.interfaces[old(self)@.hover]),
            (key == Key::Up || key == Key::Down || key == Key::Enter) && old(self)@.stage
                == ApplicationStage::Running ==> final(self)@ == old(self)@ && spawn is None,
            !(key == Key::Char('q') || key == Key::Char('Q') || key == Key::Up || key == Key::Down
                || key == Key::Enter) ==> final(self)@ == old(self)@ && spawn is None,
    {
        match key {
            Key::Char(c) => {
                if c == 'q' || c == 'Q' {
                    self.exit();
                }
                None
            },
            Key::Up => {
                self.move_hover(HoverDirection::Up);
                None
            },
            Key::Down => {
                self.move_hover(HoverDirection::Down);
                None
            },
            Key::Enter => self.confirm(),
            Key::Other => None,
        }
    }

    /// Folds a batch of probe messages, first to last, into the snapshot.
    pub fn absorb(&mut self, messages: Vec<FetchedDataMessage>)
        requires
            old(self).wf(),
        ensures
            final(self).wf(),
            final(self)@ == (AppView {
                network_info: old(self)@.network_info.with_messages(messages@),
                ..old(self)@
            }),
    {
        self.network_info.apply_all(messages);
    }

    pub fn stage(&self) -> (r: ApplicationStage)
        ensures
            r == self@.stage,
    {
        self.stage
    }

    pub fn should_exit(&self) -> (r: bool)
        ensures
            r == self@.exit,
    {
        self.exit
    }

    pub fn interface_list(&self) -> (r: &Vec<String>)
        ensures
            texts(r@) == self@.interfaces,
    {
        &self.interface_list
    }

    pub fn interface_hover_index(&self) -> (r: usize)
        ensures
            r == self@.hover,
    {
        self.interface_hover_index
    }

    pub fn chosen_interface(&self) -> (r: &Option<String>)
        ensures
            opt_text(*r) == self@.chosen,
    {
        &self.chosen_interface
    }

    pub fn network_info(&self) -> (r: &NetworkInfo)
        ensures
            *r == self@.network_info,
    {
        &self.network_info
    }
}

} // verus!

//! The plugin's life cycle and its reaction to the player's events.
//!
//! The plugin is enabled or disabled. While it is enabled, a change of song, a pause and a
//! stop each set off one export; a change of the settings has the enable flag read again.
//! A failed export ends in one line for the log, and goes no further.

use crate::error::{api_unavailable, diagnostic, Failure, NowPlayingError};
use crate::exporter::{export_start, Exporter};
use crate::protocol::Request;
use crate::settings::enables;
use crate::text::{leading_text_len, text_len};
use vstd::prelude::*;
use vstd::string::*;
use vstd::utf8::*;

verus! {

/// The status that every entry point of the plugin hands to the player: success.
pub const STATUS_OK: i32 = 0;

/// The player's events, as far as the plugin tells them apart.
#[derive(Clone, Copy, Debug, PartialEq, Eq, Structural)]
pub enum Event {
    SongChanged,
    Paused,
    Stop,
    ConfigChanged,
    /// Any other event.
    Other,
}

/// The numbers under which the player reports the events that the plugin reacts to.
#[derive(Clone, Copy, Debug, PartialEq, Eq, Structural)]
pub struct EventIds {
    pub song_changed: u32,
    pub paused: u32,
    pub stop: u32,
    pub config_changed: u32,
}

/// The event that the player reports under the number `id`. Where two events share a
/// number, the one named first in `EventIds` is meant.
pub open spec fn event_of(ids: EventIds, id: u32) -> Event {
    if id == ids.song_changed {
        Event::SongChanged
    } else if id == ids.paused {
        Event::Paused
    } else if id == ids.stop {
        Event::Stop
    } else if id == ids.config_changed {
        Event::ConfigChanged
    } else {
        Event::Other
    }
}

/// Tells the player's events apart by their number.
pub fn classify(ids: &EventIds, id: u32) -> (event: Event)
    ensures
        event == event_of(*ids, id),
{
    if id == ids.song_changed {
        Event::SongChanged
    } else if id == ids.paused {
        Event::Paused
    } else if id == ids.stop {
        Event::Stop
    } else if id == ids.config_changed {
        Event::ConfigChanged
    } else {
        Event::Other
    }
}

/// Why a line cannot go to the player's log.
#[derive(Clone, Copy, Debug, PartialEq, Eq, Structural)]
pub enum Obstacle {
    /// The line holds a zero byte, the first one at this place in its UTF-8 encoding.
    ZeroByte { position: usize },
    /// The player's function table is missing.
    ApiUnavailable,
}

/// What the host is to do after an entry point has run.
#[derive(Debug, PartialEq, Eq)]
pub enum Directive {
    /// Nothing.
    Idle,
    /// Read the enable setting and hand its value to `enable_read`.
    ReadEnable,
    /// Run one export and hand its outcome to `export_finished`.
    Export,
    /// Pass the line to the player's log.
    Log(String),
    /// Report on the fallback stream that the line could not be logged.
    Fallback { line: String, obstacle: Obstacle },
}

/// What an entry point hands back.
#[derive(Debug, PartialEq, Eq)]
pub struct Response {
    /// The status for the player: always `STATUS_OK`, whatever happens.
    pub status: i32,
    /// What the host is to do before it returns to the player.
    pub directive: Directive,
}

/// A directive as a mathematical value.
pub enum DirectiveModel {
    Idle,
    ReadEnable,
    Export,
    Log(Seq<char>),
    Fallback { line: Seq<char>, obstacle: Obstacle },
}

impl View for Directive {
    type V = DirectiveModel;

    open spec fn view(&self) -> DirectiveModel {
        match *self {
            Directive::Idle => DirectiveModel::Idle,
            Directive::ReadEnable => DirectiveModel::ReadEnable,
            Directive::Export => DirectiveModel::Export,
            Directive::Log(line) => DirectiveModel::Log(line@),
            Directive::Fallback { line, obstacle } => DirectiveModel::Fallback {
                line: line@,
                obstacle,
            },
        }
    }
}

/// The plugin's state as a mathematical value.
pub struct Lifecycle {
    /// The player has handed over its function table.
    pub api_bound: bool,
    /// Exports are switched on.
    pub enabled: bool,
}

impl Lifecycle {
    /// Exports are never on while the player's function table is missing.
    pub open spec fn wf(self) -> bool {
        self.enabled ==> self.api_bound
    }
}

/// The state after the player has handed over its function table.
pub open spec fn loaded(state: Lifecycle) -> Lifecycle {
    Lifecycle { api_bound: true, ..state }
}

/// The state after the enable setting was read as `value`: exports are on exactly when the
/// value is 1 and the player's function table is at hand.
pub open spec fn with_enable(state: Lifecycle, value: i32) -> Lifecycle {
    Lifecycle { enabled: state.api_bound && enables(value), ..state }
}

/// The state after the player has stopped the plugin.
pub open spec fn stopped(state: Lifecycle) -> Lifecycle {
    Lifecycle { enabled: false, ..state }
}

/// The event is one of those that set off an export: a change of song, a pause, a stop.
pub open spec fn sets_off_export(event: Event) -> bool {
    event is SongChanged || event is Paused || event is Stop
}

/// Where a line for the log goes: to the player's log, unless the line holds a zero byte
/// or the player's function table is missing.
pub open spec fn route(api_bound: bool, line: Seq<char>) -> DirectiveModel {
    let bytes = encode_utf8(line);
    if text_len(bytes) < bytes.len() {
        DirectiveModel::Fallback {
            line,
            obstacle: Obstacle::ZeroByte { position: text_len(bytes) as usize },
        }
    } else if !api_bound {
        DirectiveModel::Fallback { line, obstacle: Obstacle::ApiUnavailable }
    } else {
        DirectiveModel::Log(line)
    }
}

/// What follows the wish to read the enable setting: the reading, or without the player's
/// function table the report that it is missing.
pub open spec fn refresh(state: Lifecycle) -> DirectiveModel {
    if state.api_bound {
        DirectiveModel::ReadEnable
    } else {
        route(false, diagnostic(api_unavailable().message))
    }
}

/// What an event sets off.
pub open spec fn reaction(state: Lifecycle, event: Event) -> DirectiveModel {
    if sets_off_export(event) {
        if state.enabled {
            DirectiveModel::Export
        } else {
            DirectiveModel::Idle
        }
    } else if event is ConfigChanged {
        refresh(state)
    } else {
        DirectiveModel::Idle
    }
}

/// What follows an export: nothing after a success, the line for the log after a failure.
pub open spec fn aftermath(state: Lifecycle, outcome: Result<(), Failure>) -> DirectiveModel {
    match outcome {
        Ok(()) => DirectiveModel::Idle,
        Err(failure) => route(state.api_bound, diagnostic(failure.message)),
    }
}

/// The state that the plugin keeps between the player's calls.
#[derive(Debug)]
pub struct Plugin {
    api_bound: bool,
    enabled: bool,
}

impl View for Plugin {
    type V = Lifecycle;

    closed spec fn view(&self) -> Lifecycle {
        Lifecycle { api_bound: self.api_bound, enabled: self.enabled }
    }
}

impl Plugin {
    #[verifier::type_invariant]
    spec fn inv(self) -> bool {
        self@.wf()
    }

    /// The plugin before the player has loaded it: no function table, exports off.
    pub fn new() -> (plugin: Plugin)
        ensures
            plugin@ == (Lifecycle { api_bound: false, enabled: false }),
    {
        Plugin { api_bound: false, enabled: false }
    }

    /// Whether the player has handed over its function table.
    pub fn is_api_bound(&self) -> (bound: bool)
        ensures
            bound == self@.api_bound,
            self@.wf(),
    {
        proof {
            use_type_invariant(self);
        }
        self.api_bound
    }

    /// Whether exports are switched on.
    pub fn is_enabled(&self) -> (enabled: bool)
        ensures
            enabled == self@.enabled,
            self@.wf(),
    {
        proof {
            use_type_invariant(self);
        }
        self.enabled
    }

    /// Succeeds when the player's function table is at hand; fails, and says so, when not.
    pub fn try_get_api(&self) -> (found: Result<(), NowPlayingError>)
        ensures
            found is Ok <==> self@.api_bound,
            found matches Err(error) ==> error@ == api_unavailable(),
    {
        if self.api_bound {
            Ok(())
        } else {
            Err(NowPlayingError::api_unavailable())
        }
    }

    /// Takes the value of the enable setting: exports are on exactly when it is 1 and the
    /// player's function table is at hand.
    pub fn enable_read(&mut self, value: i32)
        ensures
            final(self)@ == with_enable(old(self)@, value),
    {
        let enabled = self.api_bound && value == 1;
        *self = Plugin { api_bound: self.api_bound, enabled };
    }

    /// Begins the export that a directive asked for. While exports are off there is none
    /// to begin.
    pub fn begin_export(&self) -> (begun: Option<(Exporter, Request)>)
        ensures
            begun is Some <==> self@.enabled,
            begun matches Some(session) ==> {
                &&& (session.0@, session.1@) == export_start(true)
                &&& session.0@.wf()
                &&& session.0@.expects() == session.1@.wants()
            },
    {
        proof {
            use_type_invariant(self);
        }
        if self.enabled {
            Some(Exporter::start(self.api_bound))
        } else {
            None
        }
    }

    /// Takes the outcome of an export. A failure becomes one line for the log, a success
    /// nothing; either way the export is not tried again.
    pub fn export_finished(&self, outcome: Result<(), NowPlayingError>) -> (directive: Directive)
        ensures
            directive@ == aftermath(
                self@,
                match outcome {
                    Ok(()) => Ok(()),
                    Err(error) => Err(error@),
                },
            ),
    {
        match outcome {
            Ok(()) => Directive::Idle,
            Err(error) => route_line(self.api_bound, error.diagnostic_line()),
        }
    }
}

/// Decides where a line for the log goes.
pub fn route_line(api_bound: bool, line: String) -> (directive: Directive)
    ensures
        directive@ == route(api_bound, line@),
{
    let bytes = line.as_str().as_bytes();
    let position = leading_text_len(bytes);
    if position < bytes.len() {
        Directive::Fallback { line, obstacle: Obstacle::ZeroByte { position } }
    } else if !api_bound {
        Directive::Fallback { line, obstacle: Obstacle::ApiUnavailable }
    } else {
        Directive::Log(line)
    }
}

/// What follows the wish to read the enable setting.
fn refresh_enable(plugin: &Plugin) -> (directive: Directive)
    ensures
        directive@ == refresh(plugin@),
{
    if plugin.api_bound {
        Directive::ReadEnable
    } else {
        route_line(false, NowPlayingError::api_unavailable().diagnostic_line())
    }
}

/// The player has loaded the plugin and handed over its function table.
pub fn now_playing_to_file_load(plugin: &mut Plugin)
    ensures
        final(plugin)@ == loaded(old(plugin)@),
{
    proof {
        use_type_invariant(&*plugin);
    }
    *plugin = Plugin { api_bound: true, enabled: plugin.enabled };
}

/// The player starts the plugin: the enable setting is to be read.
pub fn now_playing_to_file_start(plugin: &Plugin) -> (response: Response)
    ensures
        response.status == STATUS_OK,
        response.directive@ == refresh(plugin@),
{
    Response { status: STATUS_OK, directive: refresh_enable(plugin) }
}

/// The player stops the plugin: exports are off, whatever the settings say.
pub fn now_playing_to_file_stop(plugin: &mut Plugin) -> (status: i32)
    ensures
        status == STATUS_OK,
        final(plugin)@ == stopped(old(plugin)@),
{
    *plugin = Plugin { api_bound: plugin.api_bound, enabled: false };
    STATUS_OK
}

/// The player reports an event.
pub fn now_playing_to_file_message(plugin: &Plugin, event: Event) -> (response: Response)
    ensures
        response.status == STATUS_OK,
        response.directive@ == reaction(plugin@, event),
{
    let directive = match event {
        Event::SongChanged | Event::Paused | Event::Stop => {
            if plugin.enabled {
                Directive::Export
            } else {
                Directive::Idle
            }
        },
        Event::ConfigChanged => refresh_enable(plugin),
        Event::Other => Directive::Idle,
    };
    Response { status: STATUS_OK, directive }
}

/// While exports are off, no event sets one off.
pub proof fn disabled_plugin_never_exports(state: Lifecycle, event: Event)
    requires
        !state.enabled,
    ensures
        !(reaction(state, event) is Export),
{
}

/// Once the enable setting has been read, it alone decides what a change of song, a pause
/// or a stop sets off: with the value 1 one export, with any other value nothing at all,
/// neither an export nor a line for the log.
pub proof fn enable_setting_switches_exports(state: Lifecycle, value: i32, event: Event)
    requires
        state.api_bound,
        sets_off_export(event),
    ensures
        reaction(with_enable(state, value), event) == if value == 1 {
            DirectiveModel::Export
        } else {
            DirectiveModel::Idle
        },
{
}

/// A line goes to the player's log only with the function table at hand, and only where
/// its encoding holds no zero byte; where it holds one, the obstacle names the first. This
/// is said of lines that fit into memory.
pub proof fn logged_line_holds_no_zero_byte(api_bound: bool, line: Seq<char>)
    requires
        encode_utf8(line).len() <= usize::MAX,
    ensures
        route(api_bound, line) is Log <==> api_bound && !encode_utf8(line).contains(0u8),
        route(api_bound, line) matches DirectiveModel::Log(logged) ==> logged == line,
        route(api_bound, line) matches DirectiveModel::Fallback {
            obstacle: Obstacle::ZeroByte { position },
            ..
        } ==> {
            &&& position < encode_utf8(line).len()
            &&& encode_utf8(line)[position as int] == 0
            &&& forall|i: int| 0 <= i < position ==> encode_utf8(line)[i] != 0
        },
{
    let bytes = encode_utf8(line);
    bytes.index_of_first_ensures(0u8);
}

/// What follows an export never sets off another: a failed export is not tried again.
pub proof fn failure_is_not_retried(state: Lifecycle, outcome: Result<(), Failure>)
    ensures
        !(aftermath(state, outcome) is Export),
        !(aftermath(state, outcome) is ReadEnable),
        outcome is Ok ==> aftermath(state, outcome) is Idle,
{
}

/// After the player has stopped the plugin, no event sets off an export, whatever the
/// state was before.
pub proof fn stop_switches_exports_off(state: Lifecycle, event: Event)
    ensures
        !(reaction(stopped(state), event) is Export),
{
}

/// Loading, reading the enable setting and stopping keep the state well formed, and none
/// of them takes the player's function table away once it was handed over.
pub proof fn lifecycle_stays_well_formed(state: Lifecycle, value: i32)
    requires
        state.wf(),
    ensures
        loaded(state).wf(),
        with_enable(state, value).wf(),
        stopped(state).wf(),
        loaded(state).api_bound,
        with_enable(state, value).api_bound == state.api_bound,
        stopped(state).api_bound == state.api_bound,
{
}

} // verus!

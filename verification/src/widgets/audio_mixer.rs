//! The audio pane: the playing streams and the volume of each.
//!
//! The pane decides; it runs no command.  A key event may come back as an
//! [`AudioAction`] for the caller to carry out, and fresh data comes in
//! through [`AudioMixer::refresh`].

use crate::config::{Config, KeyActions};
use crate::keys::{Event, KeyEvent, KeyEventKind};
use crate::selection::{clamp, clamp_index, in_range, index_down, index_up, step_down, step_up};
use crate::text::{decimal, push_decimal};
use vstd::prelude::*;

verus! {

/// By how many percent one key press changes the volume.
pub const VOLUME_STEP: u8 = 5;

/// The loudest volume that a key press leads to, in percent.
pub const VOLUME_MAX: u8 = 100;

/// What the caller has to do after a key event or a change of volume.
#[derive(Clone, Debug, PartialEq, Eq)]
pub enum AudioAction {
    /// Nothing.
    Nothing,
    /// Change the volume of the stream `id` by `delta` percent, up where
    /// `increase` and down otherwise.
    SetVolume { id: String, delta: u8, increase: bool },
    /// Fetch the list of streams and hand it to `refresh`.
    FetchList,
}

/// An action with its texts as sequences of characters.
pub enum AudioActionView {
    Nothing,
    SetVolume { id: Seq<char>, delta: u8, increase: bool },
    FetchList,
}

impl View for AudioAction {
    type V = AudioActionView;

    open spec fn view(&self) -> AudioActionView {
        match self {
            AudioAction::Nothing => AudioActionView::Nothing,
            AudioAction::SetVolume { id, delta, increase } => AudioActionView::SetVolume {
                id: id@,
                delta: *delta,
                increase: *increase,
            },
            AudioAction::FetchList => AudioActionView::FetchList,
        }
    }
}

/// The views of the streams in `v`: name, volume and identifier.
pub open spec fn channels_view(v: Seq<(String, u8, String)>) -> Seq<(Seq<char>, u8, Seq<char>)> {
    v.map_values(|e: (String, u8, String)| (e.0@, e.1, e.2@))
}

/// The step that is applied when a stream at `volume` is asked to change by
/// `amount`: none at all where the change would lead above `VOLUME_MAX` or
/// below 0, the whole amount otherwise.
pub open spec fn effective_step(volume: u8, amount: u8, increase: bool) -> u8 {
    if increase && volume + amount > VOLUME_MAX {
        0
    } else if !increase && volume - amount < 0 {
        0
    } else {
        amount
    }
}

/// The volume that a stream at `volume` has after it was asked to change by
/// `step`: unchanged where the change would lead above `VOLUME_MAX` or
/// below 0.
pub open spec fn adjust(volume: u8, step: u8, increase: bool) -> int {
    if increase {
        if volume + step > VOLUME_MAX {
            volume as int
        } else {
            volume + step
        }
    } else {
        if volume - step < 0 {
            volume as int
        } else {
            volume - step
        }
    }
}

/// The change in the form that the sound server takes: a plus or a minus
/// sign, the step, a percent sign.
pub open spec fn change_text(step: u8, increase: bool) -> Seq<char> {
    seq![if increase { '+' } else { '-' }] + decimal(step as nat) + seq!['%']
}

/// The adjusted volume is the old one moved by the effective step, which is
/// the whole step or none of it; a change that ends exactly at a bound is
/// made in full.
pub proof fn lemma_adjust(volume: u8, step: u8, increase: bool)
    ensures
        increase ==> adjust(volume, step, increase) == volume + effective_step(
            volume,
            step,
            increase,
        ),
        !increase ==> adjust(volume, step, increase) == volume - effective_step(
            volume,
            step,
            increase,
        ),
        volume + step > VOLUME_MAX ==> adjust(volume, step, true) == volume,
        volume + step <= VOLUME_MAX ==> adjust(volume, step, true) == volume + step,
        volume - step < 0 ==> adjust(volume, step, false) == volume,
        volume - step >= 0 ==> adjust(volume, step, false) == volume - step,
        volume <= VOLUME_MAX ==> 0 <= adjust(volume, step, increase) <= VOLUME_MAX,
        0 <= adjust(volume, step, increase) <= 255,
{
}

/// The step that is applied to a stream at `volume`.
pub fn clamp_step(volume: u8, amount: u8, increase: bool) -> (step: u8)
    ensures
        step == effective_step(volume, amount, increase),
{
    if increase && volume as u16 + amount as u16 > VOLUME_MAX as u16 {
        0
    } else if !increase && volume < amount {
        0
    } else {
        amount
    }
}

/// The volume of a stream at `volume` after it was asked to change by
/// `step`.
pub fn adjust_volume(volume: u8, step: u8, increase: bool) -> (adjusted: u8)
    ensures
        adjusted == adjust(volume, step, increase),
{
    let applied = clamp_step(volume, step, increase);
    if increase {
        volume + applied
    } else {
        volume - applied
    }
}

/// The state of the audio pane.
pub struct AudioMixerView {
    pub selected_audio: nat,
    pub selected_id: Seq<char>,
    pub selected_volume: u8,
    pub audio_list: Seq<(Seq<char>, u8, Seq<char>)>,
    pub started_refresh: bool,
}

impl AudioMixerView {
    /// The selection points into the list, or is 0 where the list is empty,
    /// and the selected volume and identifier are those of the selected
    /// stream.
    pub open spec fn wf(self) -> bool {
        &&& in_range(self.selected_audio, self.audio_list.len())
        &&& self.audio_list.len() > 0 ==> {
            &&& self.selected_volume == self.audio_list[self.selected_audio as int].1
            &&& self.selected_id == self.audio_list[self.selected_audio as int].2
        }
    }

    /// The pane at start: no stream, volume 0, no identifier.
    pub open spec fn initial() -> AudioMixerView {
        AudioMixerView {
            selected_audio: 0,
            selected_id: Seq::empty(),
            selected_volume: 0,
            audio_list: Seq::empty(),
            started_refresh: false,
        }
    }

    /// The pane with the stream `index` selected; as it is where there is
    /// no such stream.
    pub open spec fn select(self, index: nat) -> AudioMixerView {
        if index < self.audio_list.len() {
            AudioMixerView {
                selected_audio: index,
                selected_volume: self.audio_list[index as int].1,
                selected_id: self.audio_list[index as int].2,
                ..self
            }
        } else {
            self
        }
    }

    /// The pane with the stream below the selected one selected, the first following the last.
    pub open spec fn move_selected_down(self) -> AudioMixerView {
        self.select(index_down(self.selected_audio, self.audio_list.len()))
    }

    /// The pane with the stream above the selected one selected, the last following the first.
    pub open spec fn move_selected_up(self) -> AudioMixerView {
        self.select(index_up(self.selected_audio, self.audio_list.len()))
    }

    /// The request to change the volume of the stream `id` by `amount`,
    /// cut to nothing where the selected volume would leave its bounds.
    pub open spec fn add_volume(
        self,
        id: Seq<char>,
        amount: u8,
        increase: bool,
    ) -> AudioActionView {
        AudioActionView::SetVolume {
            id,
            delta: effective_step(self.selected_volume, amount, increase),
            increase,
        }
    }

    /// The pane after a key press that is bound to the actions `a`: up and
    /// down move the selection, left and right move nothing.
    pub open spec fn press(self, a: KeyActions) -> AudioMixerView {
        if a.content_up {
            self.move_selected_up()
        } else if a.content_down {
            self.move_selected_down()
        } else {
            self
        }
    }

    /// What a key press that is bound to the actions `a` asks of the
    /// caller: left turns the selected stream down by one step, right turns
    /// it up, unless the key is bound to up or down as well.
    pub open spec fn press_action(self, a: KeyActions) -> AudioActionView {
        if a.content_up || a.content_down {
            AudioActionView::Nothing
        } else if a.content_left {
            self.add_volume(self.selected_id, VOLUME_STEP, false)
        } else if a.content_right {
            self.add_volume(self.selected_id, VOLUME_STEP, true)
        } else {
            AudioActionView::Nothing
        }
    }

    /// The pane after a key event: a press as `press` says, anything else
    /// leaves it as it is.
    pub open spec fn on_key(self, key: KeyEvent, a: KeyActions) -> AudioMixerView {
        if key.kind == KeyEventKind::Press {
            self.press(a)
        } else {
            self
        }
    }

    /// What a key event asks of the caller.
    pub open spec fn on_key_action(self, key: KeyEvent, a: KeyActions) -> AudioActionView {
        if key.kind == KeyEventKind::Press {
            self.press_action(a)
        } else {
            AudioActionView::Nothing
        }
    }

    /// The pane after a fresh list of streams has come in: the list
    /// replaced, the selection brought back within it, the selected volume
    /// and identifier taken from the stream that is now selected.  Where
    /// the list is empty they stay as they were.
    pub open spec fn refresh(self, audio_list: Seq<(Seq<char>, u8, Seq<char>)>) -> AudioMixerView {
        AudioMixerView {
            audio_list,
            selected_audio: clamp_index(self.selected_audio, audio_list.len()),
            ..self
        }.select(clamp_index(self.selected_audio, audio_list.len()))
    }

    /// The pane after a refresh in which the list of streams may be
    /// missing: where it is, the pane stays as it is.
    pub open spec fn refresh_with(
        self,
        audio_list: Option<Seq<(Seq<char>, u8, Seq<char>)>>,
    ) -> AudioMixerView {
        match audio_list {
            Some(list) => self.refresh(list),
            None => self,
        }
    }

    /// The pane with its refresh marked as started.
    pub open spec fn start_auto_refresh(self) -> AudioMixerView {
        AudioMixerView { started_refresh: true, ..self }
    }
}

/// What follows a change of volume: where the sound server reported
/// success the list is fetched anew, otherwise the pane keeps what it has.
pub open spec fn follow_up(success: bool) -> AudioActionView {
    if success {
        AudioActionView::FetchList
    } else {
        AudioActionView::Nothing
    }
}

/// The audio pane.
#[derive(Debug)]
pub struct AudioMixer {
    selected_audio: usize,
    selected_id: String,
    selected_volume: u8,
    audio_list: Vec<(String, u8, String)>,
    started_refresh: bool,
}

impl View for AudioMixer {
    type V = AudioMixerView;

    closed spec fn view(&self) -> AudioMixerView {
        AudioMixerView {
            selected_audio: self.selected_audio as nat,
            selected_id: self.selected_id@,
            selected_volume: self.selected_volume,
            audio_list: channels_view(self.audio_list@),
            started_refresh: self.started_refresh,
        }
    }
}

impl AudioMixer {
    #[verifier::type_invariant]
    spec fn inv(&self) -> bool {
        self@.wf()
    }

    /// A pane without streams.
    pub fn new() -> (pane: AudioMixer)
        ensures
            pane@ == AudioMixerView::initial(),
            pane@.wf(),
    {
        let pane = AudioMixer {
            selected_audio: 0,
            audio_list: Vec::new(),
            started_refresh: false,
            selected_volume: 0,
            selected_id: String::new(),
        };
        proof {
            assert(pane@.audio_list =~= Seq::empty());
        }
        pane
    }

    /// The index of the selected stream.
    pub fn selected_audio(&self) -> (r: usize)
        ensures
            r == self@.selected_audio,
            self@.wf(),
    {
        proof {
            use_type_invariant(self);
        }
        self.selected_audio
    }

    /// The identifier of the selected stream.
    pub fn selected_id(&self) -> (r: &String)
        ensures
            r@ == self@.selected_id,
    {
        &self.selected_id
    }

    /// The volume of the selected stream, in percent.
    pub fn selected_volume(&self) -> (r: u8)
        ensures
            r == self@.selected_volume,
    {
        self.selected_volume
    }

    /// The playing streams: name, volume and identifier of each.
    pub fn audio_list(&self) -> (r: &Vec<(String, u8, String)>)
        ensures
            channels_view(r@) == self@.audio_list,
            self@.wf(),
    {
        proof {
            use_type_invariant(self);
        }
        &self.audio_list
    }

    /// Whether the periodic refresh has been started.
    pub fn started_refresh(&self) -> (r: bool)
        ensures
            r == self@.started_refresh,
    {
        self.started_refresh
    }

    /// Selects the stream `index`, which the list holds.
    fn select(&mut self, index: usize)
        requires
            index < old(self)@.audio_list.len(),
        ensures
            final(self)@ == old(self)@.select(index as nat),
            final(self)@.wf(),
    {
        proof {
            use_type_invariant(&*self);
        }
        // The selection and what mirrors it change in one assignment.
        let mut taken = AudioMixer::new();
        std::mem::swap(self, &mut taken);
        let AudioMixer { audio_list, started_refresh, .. } = taken;
        let volume = audio_list[index].1;
        let id = audio_list[index].2.clone();
        *self = AudioMixer {
            selected_audio: index,
            selected_id: id,
            selected_volume: volume,
            audio_list,
            started_refresh,
        };
    }

    /// Moves the selection one stream down, from the last to the first.
    pub fn move_selected_down(&mut self)
        ensures
            final(self)@ == old(self)@.move_selected_down(),
            final(self)@.wf(),
    {
        proof {
            use_type_invariant(&*self);
        }
        let n = self.audio_list.len();
        if n > 0 {
            self.select(step_down(self.selected_audio, n));
        }
    }

    /// Moves the selection one stream up, from the first to the last.
    pub fn move_selected_up(&mut self)
        ensures
            final(self)@ == old(self)@.move_selected_up(),
            final(self)@.wf(),
    {
        proof {
            use_type_invariant(&*self);
        }
        let n = self.audio_list.len();
        if n > 0 {
            self.select(step_up(self.selected_audio, n));
        }
    }

    /// The request to change the volume of the stream `id` by `amount`
    /// percent, up where `increase` and down otherwise.  A change that
    /// would take the selected volume above `VOLUME_MAX` or below 0 is cut
    /// to a change by nothing.
    pub fn add_volume(&self, id: &String, amount: u8, increase: bool) -> (action: AudioAction)
        ensures
            action@ == self@.add_volume(id@, amount, increase),
    {
        let delta = clamp_step(self.selected_volume, amount, increase);
        AudioAction::SetVolume { id: id.clone(), delta, increase }
    }

    /// The change by `delta` percent in the form that the sound server
    /// takes.
    pub fn volume_argument(delta: u8, increase: bool) -> (change: String)
        ensures
            change@ == change_text(delta, increase),
    {
        let mut change = String::new();
        change.push(if increase {
            '+'
        } else {
            '-'
        });
        push_decimal(&mut change, delta as usize);
        change.push('%');
        proof {
            assert(change@ =~= change_text(delta, increase));
        }
        change
    }

    /// What to do once the sound server has answered a change of volume.
    pub fn volume_changed(&self, success: bool) -> (action: AudioAction)
        ensures
            action@ == follow_up(success),
    {
        if success {
            AudioAction::FetchList
        } else {
            AudioAction::Nothing
        }
    }

    /// Handles a key event of which `actions` says what its key is bound
    /// to, and hands back what the caller has to do.
    pub fn apply_key(&mut self, key_event: &KeyEvent, actions: &KeyActions) -> (action: AudioAction)
        ensures
            final(self)@ == old(self)@.on_key(*key_event, *actions),
            action@ == old(self)@.on_key_action(*key_event, *actions),
            final(self)@.wf(),
    {
        proof {
            use_type_invariant(&*self);
        }
        if key_event.kind != KeyEventKind::Press {
            return AudioAction::Nothing;
        }
        if actions.content_up {
            self.move_selected_up();
            AudioAction::Nothing
        } else if actions.content_down {
            self.move_selected_down();
            AudioAction::Nothing
        } else if actions.content_left {
            let id = self.selected_id.clone();
            self.add_volume(&id, VOLUME_STEP, false)
        } else if actions.content_right {
            let id = self.selected_id.clone();
            self.add_volume(&id, VOLUME_STEP, true)
        } else {
            AudioAction::Nothing
        }
    }

    /// Handles a key event under the bindings of `config`.
    fn handle_key_event(&mut self, key_event: &KeyEvent, config: &Config) -> (action: AudioAction)
        ensures
            final(self)@ == old(self)@.on_key(*key_event, config.keybinds.actions(*key_event)),
            action@ == old(self)@.on_key_action(*key_event, config.keybinds.actions(*key_event)),
            final(self)@.wf(),
    {
        let actions = config.resolve(key_event);
        self.apply_key(key_event, &actions)
    }

    /// Handles an input event: a key event as the bindings of `config` say,
    /// anything else not at all.
    pub fn handle_events(&mut self, event: &Event, config: &Config) -> (action: AudioAction)
        ensures
            match *event {
                Event::Key(key) => {
                    &&& final(self)@ == old(self)@.on_key(key, config.keybinds.actions(key))
                    &&& action@ == old(self)@.on_key_action(key, config.keybinds.actions(key))
                },
                Event::Other => final(self)@ == old(self)@ && action@ == AudioActionView::Nothing,
            },
            final(self)@.wf(),
    {
        proof {
            use_type_invariant(&*self);
        }
        match event {
            Event::Key(key_event) => self.handle_key_event(key_event, config),
            Event::Other => AudioAction::Nothing,
        }
    }

    /// Marks the periodic refresh as started.  The answer is `true` the
    /// first time, when the caller has to start the worker, and `false`
    /// every time after: a pane gets one worker.
    pub fn start_auto_refresh(&mut self) -> (spawn: bool)
        ensures
            spawn == !old(self)@.started_refresh,
            final(self)@ == old(self)@.start_auto_refresh(),
            final(self)@.wf(),
    {
        proof {
            use_type_invariant(&*self);
        }
        if self.started_refresh {
            return false;
        }
        self.started_refresh = true;
        true
    }

    /// Takes in a fresh list of streams.
    pub fn refresh(&mut self, audio_list: Vec<(String, u8, String)>)
        ensures
            final(self)@ == old(self)@.refresh(channels_view(audio_list@)),
            final(self)@.wf(),
    {
        proof {
            use_type_invariant(&*self);
        }
        let n = audio_list.len();
        let index = clamp(self.selected_audio, n);
        let mut id = self.selected_id.clone();
        let mut volume = self.selected_volume;
        if n > 0 {
            volume = audio_list[index].1;
            id = audio_list[index].2.clone();
        }
        *self = AudioMixer {
            selected_audio: index,
            selected_id: id,
            selected_volume: volume,
            audio_list,
            started_refresh: self.started_refresh,
        };
    }
}

impl AudioMixer {
    /// Takes in a fresh list of streams, which may be missing because its
    /// command failed.
    pub fn refresh_with(&mut self, audio_list: Option<Vec<(String, u8, String)>>)
        ensures
            final(self)@ == old(self)@.refresh_with(
                match audio_list {
                    Some(list) => Some(channels_view(list@)),
                    None => None,
                },
            ),
            final(self)@.wf(),
    {
        proof {
            use_type_invariant(&*self);
        }
        match audio_list {
            Some(list) => {
                self.refresh(list);
            },
            None => {},
        }
    }
}

/// A copy of the list of streams.
pub fn clone_channels(list: &Vec<(String, u8, String)>) -> (copy: Vec<(String, u8, String)>)
    ensures
        channels_view(copy@) == channels_view(list@),
{
    let mut copy: Vec<(String, u8, String)> = Vec::new();
    let mut i: usize = 0;
    while i < list.len()
        invariant
            i <= list.len(),
            channels_view(copy@) == channels_view(list@).take(i as int),
        decreases list.len() - i,
    {
        let entry = (list[i].0.clone(), list[i].1, list[i].2.clone());
        let ghost before = copy@;
        copy.push(entry);
        proof {
            assert(channels_view(list@)[i as int] == (entry.0@, entry.1, entry.2@));
            assert(channels_view(copy@) =~= channels_view(before).push(
                (entry.0@, entry.1, entry.2@),
            ));
            assert(channels_view(list@).take(i + 1) =~= channels_view(list@).take(i as int).push(
                channels_view(list@)[i as int],
            ));
        }
        i += 1;
    }
    proof {
        assert(channels_view(list@).take(list.len() as int) =~= channels_view(list@));
    }
    copy
}

impl Clone for AudioMixer {
    /// A pane in the same state.
    fn clone(&self) -> (copy: AudioMixer)
        ensures
            copy@ == self@,
    {
        proof {
            use_type_invariant(self);
        }
        AudioMixer {
            selected_audio: self.selected_audio,
            selected_id: self.selected_id.clone(),
            selected_volume: self.selected_volume,
            audio_list: clone_channels(&self.audio_list),
            started_refresh: self.started_refresh,
        }
    }
}

// ---------------------------------------------------------------------------
// Laws of the pane
// ---------------------------------------------------------------------------

impl AudioMixerView {
    /// The pane after `times` moves of the selection down.
    pub open spec fn move_selected_down_times(self, times: nat) -> AudioMixerView
        decreases times,
    {
        if times == 0 {
            self
        } else {
            self.move_selected_down_times((times - 1) as nat).move_selected_down()
        }
    }
}

/// Moving the selection down leads to the stream that as many moves of the
/// index lead to, and keeps the pane well formed.
pub proof fn lemma_move_selected_down_times(v: AudioMixerView, times: nat)
    requires
        v.wf(),
        v.audio_list.len() > 0,
    ensures
        v.move_selected_down_times(times).wf(),
        v.move_selected_down_times(times) == v.select(
            crate::selection::index_down_times(v.selected_audio, v.audio_list.len(), times),
        ),
        crate::selection::index_down_times(v.selected_audio, v.audio_list.len(), times)
            < v.audio_list.len(),
    decreases times,
{
    if times > 0 {
        lemma_move_selected_down_times(v, (times - 1) as nat);
    }
}

/// Where streams are listed, moving the selection down once for each of
/// them leaves the pane as it was.
pub proof fn lemma_selection_round_trip(v: AudioMixerView)
    requires
        v.wf(),
        v.audio_list.len() > 0,
    ensures
        v.move_selected_down_times(v.audio_list.len()) == v,
{
    lemma_move_selected_down_times(v, v.audio_list.len());
    crate::selection::lemma_down_round_trip(v.selected_audio, v.audio_list.len());
}

/// Every key event and every refresh keeps the selection inside the list
/// and the selected volume and identifier equal to those of the selected
/// stream.
pub proof fn lemma_wf_is_kept(
    v: AudioMixerView,
    key: KeyEvent,
    a: KeyActions,
    audio_list: Seq<(Seq<char>, u8, Seq<char>)>,
)
    requires
        v.wf(),
    ensures
        AudioMixerView::initial().wf(),
        v.on_key(key, a).wf(),
        v.refresh(audio_list).wf(),
        v.start_auto_refresh().wf(),
{
}

/// Starting the refresh a second time changes nothing and asks for no
/// second worker: the flag goes from unset to set once.
pub proof fn lemma_start_auto_refresh_once(v: AudioMixerView)
    ensures
        v.start_auto_refresh().started_refresh,
        v.start_auto_refresh().start_auto_refresh() == v.start_auto_refresh(),
        v.started_refresh ==> v.start_auto_refresh() == v,
{
}

} // verus!

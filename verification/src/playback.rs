//! Animation playback: which clip is selected, pause and loop, how the clips
//! are named, and what the animation players are told to do.
use vstd::prelude::*;

use crate::assets::AssetKey;
use crate::text::{decimal, digits_value, law_decimal_reads_back, push_decimal};

verus! {

/// The state of clip playback.
pub struct AnimationPlayback {
    /// The clips of the model have been looked at.
    pub initialized: bool,
    /// The model has clips and they have been set up.
    pub has_animation: bool,
    pub paused: bool,
    pub looping: bool,
    /// The index of the selected clip.
    pub selected: usize,
    /// The display name of each clip.
    pub names: Vec<String>,
    /// The animation graph node of each clip.
    pub nodes: Vec<usize>,
}

/// The state of clip playback as values.
pub struct PlaybackView {
    pub initialized: bool,
    pub has_animation: bool,
    pub paused: bool,
    pub looping: bool,
    pub selected: nat,
    pub names: Seq<Seq<char>>,
    pub nodes: Seq<usize>,
}

pub open spec fn string_views(names: Seq<String>) -> Seq<Seq<char>> {
    names.map_values(|s: String| s@)
}

impl View for AnimationPlayback {
    type V = PlaybackView;

    open spec fn view(&self) -> PlaybackView {
        PlaybackView {
            initialized: self.initialized,
            has_animation: self.has_animation,
            paused: self.paused,
            looping: self.looping,
            selected: self.selected as nat,
            names: string_views(self.names@),
            nodes: self.nodes@,
        }
    }
}

/// Playback before the model is looked at: first clip, looping, playing.
pub open spec fn initial_playback() -> PlaybackView {
    PlaybackView {
        initialized: false,
        has_animation: false,
        paused: false,
        looping: true,
        selected: 0,
        names: Seq::empty(),
        nodes: Seq::empty(),
    }
}

impl Default for AnimationPlayback {
    fn default() -> (p: Self)
        ensures
            p@ == initial_playback(),
    {
        let p = AnimationPlayback {
            initialized: false,
            has_animation: false,
            paused: false,
            looping: true,
            selected: 0,
            names: Vec::new(),
            nodes: Vec::new(),
        };
        assert(p@.names =~= Seq::<Seq<char>>::empty());
        p
    }
}

/// What an animation player is told when the selected clip is (re)started:
/// stop everything, start `node`, repeat it if looping, pause it if paused.
#[derive(Clone, Copy, Debug, PartialEq, Eq, Structural)]
pub struct AnimationStart {
    pub node: usize,
    pub repeat: bool,
    pub pause: bool,
}

/// The start of the selected clip; none when no clip is at that index.
pub open spec fn start_spec(p: PlaybackView) -> Option<AnimationStart> {
    if p.selected < p.nodes.len() {
        Some(AnimationStart { node: p.nodes[p.selected as int], repeat: p.looping, pause: p.paused })
    } else {
        None
    }
}

/// The clip list, pause and loop buttons clicked in one frame.
#[derive(Clone, Copy, Debug, PartialEq, Eq, Structural)]
pub struct PlaybackClicks {
    /// The clip clicked in the list.
    pub selected: Option<usize>,
    pub toggle_pause: bool,
    pub toggle_loop: bool,
}

/// What the animation players are told after a frame of clicks.
#[derive(Clone, Copy, Debug, PartialEq, Eq, Structural)]
pub struct PlaybackActions {
    /// Restart every player with this, when a clip was picked or looping
    /// toggled and the selected clip exists.
    pub start: Option<AnimationStart>,
    /// Pause every player (`true`) or resume every player (`false`).
    pub pause: Option<bool>,
}

/// Nothing clicked.
pub open spec fn no_clicks() -> PlaybackClicks {
    PlaybackClicks { selected: None, toggle_pause: false, toggle_loop: false }
}

/// The state after the selection and loop clicks of a frame.
pub open spec fn after_selection(p: PlaybackView, clicks: PlaybackClicks) -> PlaybackView {
    PlaybackView {
        selected: match clicks.selected {
            Some(i) => i as nat,
            None => p.selected,
        },
        looping: if clicks.toggle_loop {
            !p.looping
        } else {
            p.looping
        },
        ..p
    }
}

/// The state after a frame of clicks.
pub open spec fn click_state(p: PlaybackView, clicks: PlaybackClicks) -> PlaybackView {
    let q = after_selection(p, clicks);
    PlaybackView {
        paused: if clicks.toggle_pause {
            !q.paused
        } else {
            q.paused
        },
        ..q
    }
}

/// The player commands of a frame of clicks: a restart with the new
/// selection and loop setting (and the pause setting from before the frame)
/// when a clip was picked or looping toggled; pause or resume all when pause
/// was toggled.
pub open spec fn click_actions(p: PlaybackView, clicks: PlaybackClicks) -> PlaybackActions {
    let q = after_selection(p, clicks);
    PlaybackActions {
        start: if clicks.selected is Some || clicks.toggle_loop {
            start_spec(q)
        } else {
            None
        },
        pause: if clicks.toggle_pause {
            Some(!q.paused)
        } else {
            None
        },
    }
}

/// The state after setting up the clips of a model.
pub open spec fn installed(p: PlaybackView, names: Seq<Seq<char>>, nodes: Seq<usize>) -> PlaybackView {
    PlaybackView { names, nodes, selected: 0, has_animation: true, initialized: true, ..p }
}

impl AnimationPlayback {
    /// Decides on a frame whether the clips of the model are set up now.
    /// `clip_count` is the number of clips of the loaded glTF, `None` while
    /// there is none or it is not loaded; `has_players` tells whether the
    /// scene has animation players yet. A model without clips is marked as
    /// looked at. Returns whether the clips are to be set up now.
    pub fn setup_animation_graph(&mut self, clip_count: Option<usize>, has_players: bool) -> (build: bool)
        ensures
            build == (!old(self).initialized && clip_count is Some && clip_count->0 > 0
                && has_players),
            final(self)@ == (if !old(self).initialized && clip_count == Some(0usize) {
                PlaybackView { initialized: true, ..old(self)@ }
            } else {
                old(self)@
            }),
    {
        if self.initialized {
            return false;
        }
        match clip_count {
            None => false,
            Some(n) => {
                if n == 0 {
                    self.initialized = true;
                    false
                } else {
                    has_players
                }
            },
        }
    }

    /// Records the set-up clips: their names and graph nodes; selects the
    /// first.
    pub fn install_animations(&mut self, names: Vec<String>, nodes: Vec<usize>)
        ensures
            final(self)@ == installed(old(self)@, string_views(names@), nodes@),
    {
        self.names = names;
        self.nodes = nodes;
        self.selected = 0;
        self.has_animation = true;
        self.initialized = true;
    }

    /// The start of the selected clip, if it exists.
    pub fn start_command(&self) -> (start: Option<AnimationStart>)
        ensures
            start == start_spec(self@),
    {
        if self.selected < self.nodes.len() {
            Some(AnimationStart { node: self.nodes[self.selected], repeat: self.looping, pause: self.paused })
        } else {
            None
        }
    }

    /// Applies a frame of clicks and returns what the players are told.
    pub fn apply_clicks(&mut self, clicks: PlaybackClicks) -> (actions: PlaybackActions)
        ensures
            final(self)@ == click_state(old(self)@, clicks),
            actions == click_actions(old(self)@, clicks),
    {
        if let Some(i) = clicks.selected {
            self.selected = i;
        }
        if clicks.toggle_loop {
            self.looping = !self.looping;
        }
        let start = if clicks.selected.is_some() || clicks.toggle_loop {
            self.start_command()
        } else {
            None
        };
        let pause = if clicks.toggle_pause {
            self.paused = !self.paused;
            Some(self.paused)
        } else {
            None
        };
        PlaybackActions { start, pause }
    }

    /// The name of the selected clip, or `Animacao` when none is at that
    /// index.
    pub fn selected_name(&self) -> (name: &str)
        ensures
            name@ == (if self.selected < self.names@.len() {
                self.names@[self.selected as int]@
            } else {
                "Animacao"@
            }),
    {
        if self.selected < self.names.len() {
            self.names[self.selected].as_str()
        } else {
            "Animacao"
        }
    }

    /// The line naming the selected clip.
    pub fn selected_label(&self) -> (label: String)
        ensures
            label@ == "Selecionada: "@ + (if self.selected < self.names@.len() {
                self.names@[self.selected as int]@
            } else {
                "Animacao"@
            }),
    {
        let mut label = String::new();
        label.append("Selecionada: ");
        label.append(self.selected_name());
        assert(label@ =~= "Selecionada: "@ + (if self.selected < self.names@.len() {
            self.names@[self.selected as int]@
        } else {
            "Animacao"@
        }));
        label
    }

    /// The caption of the pause button: what clicking it does.
    pub fn play_label(&self) -> (label: &'static str)
        ensures
            label@ == (if self.paused {
                "Reproduzir"@
            } else {
                "Pausar"@
            }),
    {
        if self.paused {
            "Reproduzir"
        } else {
            "Pausar"
        }
    }
}

/// A clip registered under a name in the glTF.
pub struct NamedClip {
    pub name: String,
    pub clip: AssetKey,
}

/// The name of a clip without one: `Animacao ` and its 1-based position.
pub open spec fn fallback_clip_name(index: nat) -> Seq<char> {
    "Animacao "@ + decimal(index + 1)
}

/// The display name of clip `clip` at position `index`: the name of the first
/// named clip that is it, else the fallback name.
pub open spec fn clip_name(clip: AssetKey, index: nat, named: Seq<NamedClip>) -> Seq<char> {
    if exists|j: int| 0 <= j < named.len() && named[j].clip == clip {
        named[first_named(clip, named)].name@
    } else {
        fallback_clip_name(index)
    }
}

/// The position of the first named clip that is `clip`.
pub open spec fn first_named(clip: AssetKey, named: Seq<NamedClip>) -> int {
    choose|j: int|
        0 <= j < named.len() && named[j].clip == clip && forall|k: int|
            0 <= k < j ==> named[k].clip != clip
}

proof fn lemma_first_named(clip: AssetKey, named: Seq<NamedClip>, j: int)
    requires
        0 <= j < named.len(),
        named[j].clip == clip,
        forall|k: int| 0 <= k < j ==> named[k].clip != clip,
    ensures
        first_named(clip, named) == j,
{
    let f = first_named(clip, named);
    assert(0 <= f < named.len() && named[f].clip == clip && forall|k: int|
        0 <= k < f ==> named[k].clip != clip);
    if f < j {
        assert(named[f].clip != clip);
    }
    if j < f {
        assert(named[j].clip != clip);
    }
}

/// The display names of the clips of a glTF, in clip order. `named` lists the
/// names the glTF gives clips, in the order the glTF's name table yields
/// them.
pub fn clip_display_names(clips: &Vec<AssetKey>, named: &Vec<NamedClip>) -> (names: Vec<String>)
    ensures
        names@.len() == clips@.len(),
        forall|i: int|
            0 <= i < clips@.len() ==> #[trigger] names@[i]@ == clip_name(clips@[i], i as nat, named@),
{
    let mut names: Vec<String> = Vec::new();
    let mut i: usize = 0;
    while i < clips.len()
        invariant
            i <= clips@.len(),
            names@.len() == i,
            forall|k: int|
                0 <= k < i ==> #[trigger] names@[k]@ == clip_name(clips@[k], k as nat, named@),
        decreases clips@.len() - i,
    {
        let clip = clips[i];
        let mut found: Option<usize> = None;
        let mut j: usize = 0;
        while j < named.len() && found.is_none()
            invariant
                j <= named@.len(),
                found matches Some(f) ==> f < named@.len() && named@[f as int].clip == clip
                    && forall|k: int| 0 <= k < f ==> named@[k].clip != clip,
                found is None ==> forall|k: int| 0 <= k < j ==> named@[k].clip != clip,
            decreases named@.len() - j,
        {
            if named[j].clip == clip {
                found = Some(j);
            }
            j = j + 1;
        }
        let name = match found {
            Some(j) => {
                proof {
                    lemma_first_named(clip, named@, j as int);
                }
                named[j].name.clone()
            },
            None => {
                let mut s = String::new();
                s.append("Animacao ");
                push_decimal(&mut s, (i as u128) + 1);
                assert(!(exists|k: int| 0 <= k < named@.len() && named@[k].clip == clip));
                assert(s@ =~= fallback_clip_name(i as nat));
                s
            },
        };
        names.push(name);
        i = i + 1;
    }
    names
}

/// A model's clips start with the first one, looping and playing: once set
/// up from the initial state, the selected clip is started on the first
/// clip's node, repeating, not paused.
pub proof fn law_first_clip_starts_looping(names: Seq<Seq<char>>, nodes: Seq<usize>)
    requires
        nodes.len() > 0,
    ensures
        start_spec(installed(initial_playback(), names, nodes)) == Some(
            AnimationStart { node: nodes[0], repeat: true, pause: false },
        ),
{
}

/// A frame without clicks changes nothing and tells the players nothing.
pub proof fn law_no_clicks_no_change(p: PlaybackView)
    ensures
        click_state(p, no_clicks()) == p,
        click_actions(p, no_clicks()) == (PlaybackActions { start: None, pause: None }),
{
    assert(click_state(p, no_clicks()) =~= p);
}

/// The pause button alone flips pause, pauses or resumes every player
/// accordingly, and restarts nothing; clicking it twice restores the state.
pub proof fn law_pause_button(p: PlaybackView)
    ensures
        ({
            let pause = PlaybackClicks { selected: None, toggle_pause: true, toggle_loop: false };
            &&& click_state(p, pause) == PlaybackView { paused: !p.paused, ..p }
            &&& click_actions(p, pause) == (PlaybackActions { start: None, pause: Some(!p.paused) })
            &&& click_state(click_state(p, pause), pause) == p
        }),
{
    let pause = PlaybackClicks { selected: None, toggle_pause: true, toggle_loop: false };
    assert(click_state(click_state(p, pause), pause) =~= p);
}

/// Picking a clip that exists restarts every player on it, with the loop and
/// pause settings as they are.
pub proof fn law_picked_clip_restarts(p: PlaybackView, index: usize)
    requires
        index < p.nodes.len(),
    ensures
        ({
            let pick = PlaybackClicks { selected: Some(index), toggle_pause: false, toggle_loop: false };
            &&& click_state(p, pick) == PlaybackView { selected: index as nat, ..p }
            &&& click_actions(p, pick) == (PlaybackActions {
                start: Some(AnimationStart { node: p.nodes[index as int], repeat: p.looping, pause: p.paused }),
                pause: None,
            })
        }),
{
}

/// The loop button restarts the selected clip with looping flipped.
pub proof fn law_loop_button_restarts(p: PlaybackView)
    requires
        p.selected < p.nodes.len(),
    ensures
        ({
            let toggle = PlaybackClicks { selected: None, toggle_pause: false, toggle_loop: true };
            &&& click_state(p, toggle) == PlaybackView { looping: !p.looping, ..p }
            &&& click_actions(p, toggle).start == Some(
                AnimationStart { node: p.nodes[p.selected as int], repeat: !p.looping, pause: p.paused },
            )
        }),
{
}

/// A clip the glTF does not name is called `Animacao ` followed by its
/// 1-based position: its name is that prefix and digits that read back as
/// the position plus one.
pub proof fn law_unnamed_clip_name(clip: AssetKey, index: nat, named: Seq<NamedClip>)
    requires
        forall|j: int| 0 <= j < named.len() ==> named[j].clip != clip,
    ensures
        ({
            let name = clip_name(clip, index, named);
            &&& name.len() > 9
            &&& name.subrange(0, 9) == "Animacao "@
            &&& digits_value(name.subrange(9, name.len() as int)) == index + 1
        }),
{
    reveal_strlit("Animacao ");
    law_decimal_reads_back(index + 1);
    let name = clip_name(clip, index, named);
    assert(name == "Animacao "@ + decimal(index + 1));
    assert(name.subrange(0, 9) =~= "Animacao "@);
    assert(name.subrange(9, name.len() as int) =~= decimal(index + 1));
}

/// Clips without a glTF name at different positions get different names.
pub proof fn law_unnamed_clips_named_apart(
    a: AssetKey,
    i: nat,
    b: AssetKey,
    j: nat,
    named: Seq<NamedClip>,
)
    requires
        i != j,
        forall|k: int| 0 <= k < named.len() ==> named[k].clip != a && named[k].clip != b,
    ensures
        clip_name(a, i, named) != clip_name(b, j, named),
{
    law_unnamed_clip_name(a, i, named);
    law_unnamed_clip_name(b, j, named);
    let na = clip_name(a, i, named);
    let nb = clip_name(b, j, named);
    if na == nb {
        assert(na.subrange(9, na.len() as int) == nb.subrange(9, nb.len() as int));
    }
}

/// A clip the glTF names takes the first name given to it.
pub proof fn law_named_clip_name(clip: AssetKey, index: nat, named: Seq<NamedClip>, k: int)
    requires
        0 <= k < named.len(),
        named[k].clip == clip,
        forall|j: int| 0 <= j < k ==> named[j].clip != clip,
    ensures
        clip_name(clip, index, named) == named[k].name@,
{
    lemma_first_named(clip, named, k);
}

/// In a frame where a clip is picked and pause is toggled, the players are
/// restarted on the picked clip with the pause setting from before the frame,
/// then paused or resumed by the new one.
pub proof fn law_restart_precedes_pause(p: PlaybackView, index: usize)
    requires
        index < p.nodes.len(),
    ensures
        ({
            let both = PlaybackClicks { selected: Some(index), toggle_pause: true, toggle_loop: false };
            &&& click_actions(p, both).start == Some(
                AnimationStart { node: p.nodes[index as int], repeat: p.looping, pause: p.paused },
            )
            &&& click_actions(p, both).pause == Some(!p.paused)
            &&& click_state(p, both).paused == !p.paused
            &&& click_state(p, both).selected == index
            &&& click_state(p, both).looping == p.looping
        }),
{
}

/// Picking a position with no clip restarts nothing.
pub proof fn law_missing_clip_starts_nothing(p: PlaybackView, index: usize)
    requires
        index >= p.nodes.len(),
    ensures
        click_actions(p, PlaybackClicks { selected: Some(index), toggle_pause: false, toggle_loop: false }).start
            is None,
{
}

} // verus!

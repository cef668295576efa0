//! The guided audio setup.

use vstd::prelude::*;

use crate::audio::{AudioNode, Diagnostics};

verus! {

/// A step of the setup.
#[derive(Clone, Copy, Debug, PartialEq, Eq, Structural)]
pub enum AudioSetupStep {
    Diagnostics,
    Destination,
    VirtualSource,
    PhysicalSource,
    ConfirmCreation,
}

/// The setup: what was found, the step it is at, and what has been chosen so far.
pub struct AudioSetup {
    pub diagnostics: Diagnostics,
    pub step: AudioSetupStep,
    pub selected_index: usize,
    pub selected_sink: Option<String>,
    pub selected_source: Option<String>,
    pub compatible_sources: Vec<AudioNode>,
    pub required: bool,
    pub error: Option<String>,
}

/// The virtual nodes of a list.
pub open spec fn virtual_nodes(nodes: Seq<AudioNode>) -> Seq<AudioNode> {
    nodes.filter(|node: AudioNode| node.is_virtual)
}

/// The destination that is offered first: an existing virtual sink, else the creation of one.
pub open spec fn preferred_destination(diagnostics: Diagnostics) -> int {
    if exists|i: int|
        0 <= i < diagnostics.inventory.sinks@.len() && (
        #[trigger] diagnostics.inventory.sinks@[i]).is_virtual {
        1
    } else {
        0
    }
}

/// The place of the destination that is offered first.
pub fn preferred_destination_index(diagnostics: &Diagnostics) -> (index: usize)
    ensures
        index == preferred_destination(*diagnostics),
{
    let sinks = &diagnostics.inventory.sinks;
    let mut i: usize = 0;
    while i < sinks.len()
        invariant
            i <= sinks@.len(),
            *sinks == diagnostics.inventory.sinks,
            forall|k: int| 0 <= k < i ==> !(#[trigger] sinks@[k]).is_virtual,
        decreases sinks@.len() - i,
    {
        if sinks[i].is_virtual {
            return 1;
        }
        i += 1;
    }
    0
}

impl AudioSetup {
    /// The setup as it opens, with these diagnostics.
    pub open spec fn opened(self, diagnostics: Diagnostics, required: bool) -> bool {
        &&& self.diagnostics == diagnostics
        &&& self.step == AudioSetupStep::Diagnostics
        &&& self.selected_index == preferred_destination(diagnostics)
        &&& self.selected_sink is None
        &&& self.selected_source is None
        &&& self.compatible_sources@.len() == 0
        &&& self.required == required
        &&& self.error is None
    }

    /// The virtual sinks that were found.
    pub open spec fn virtual_choices(self) -> Seq<AudioNode> {
        virtual_nodes(self.diagnostics.inventory.sinks@)
    }

    /// How many choices the step offers.
    pub open spec fn choice_count(self) -> int {
        match self.step {
            AudioSetupStep::Diagnostics => 1,
            AudioSetupStep::ConfirmCreation => 1,
            AudioSetupStep::Destination => 1 + self.virtual_choices().len() as int,
            AudioSetupStep::VirtualSource => if self.compatible_sources@.len() == 0 {
                1
            } else {
                self.compatible_sources@.len() as int
            },
            AudioSetupStep::PhysicalSource => if self.diagnostics.inventory.physical_sources@.len()
                == 0 {
                1
            } else {
                self.diagnostics.inventory.physical_sources@.len() as int
            },
        }
    }

    /// The setup with the next choice selected, or the last.
    pub open spec fn selecting_next(self) -> AudioSetup {
        AudioSetup {
            selected_index: (if self.selected_index + 1 < self.choice_count() {
                self.selected_index + 1
            } else {
                self.choice_count() - 1
            }) as usize,
            ..self
        }
    }

    /// The setup with the previous choice selected, or the first.
    pub open spec fn selecting_previous(self) -> AudioSetup {
        AudioSetup {
            selected_index: (if self.selected_index == 0 {
                0
            } else {
                self.selected_index - 1
            }) as usize,
            ..self
        }
    }

    /// The setup as it opens.
    pub fn new(diagnostics: Diagnostics, required: bool) -> (setup: AudioSetup)
        ensures
            setup.opened(diagnostics, required),
    {
        let selected_index = preferred_destination_index(&diagnostics);
        AudioSetup {
            diagnostics,
            step: AudioSetupStep::Diagnostics,
            selected_index,
            selected_sink: None,
            selected_source: None,
            compatible_sources: Vec::new(),
            required,
            error: None,
        }
    }

    /// The virtual sinks that were found.
    pub fn virtual_sinks(&self) -> (sinks: Vec<&AudioNode>)
        ensures
            sinks@.unref() == self.virtual_choices(),
    {
        let all = &self.diagnostics.inventory.sinks;
        let ghost wanted = |node: AudioNode| node.is_virtual;
        let mut sinks: Vec<&AudioNode> = Vec::new();
        let mut i: usize = 0;
        proof {
            reveal(Seq::filter);
        }
        assert(all@.take(0) == Seq::<AudioNode>::empty());
        assert(sinks@.unref() =~= all@.take(0).filter(wanted));
        while i < all.len()
            invariant
                i <= all@.len(),
                wanted == (|node: AudioNode| node.is_virtual),
                sinks@.unref() == all@.take(i as int).filter(wanted),
            decreases all@.len() - i,
        {
            let ghost seen = all@.take(i as int);
            assert(all@.take(i + 1) == seen.push(all@[i as int]));
            proof {
                seen.lemma_filter_push(all@[i as int], wanted);
            }
            let ghost before = sinks@.unref();
            if all[i].is_virtual {
                sinks.push(&all[i]);
                assert(sinks@.unref() =~= before.push(all@[i as int]));
            }
            i += 1;
        }
        assert(all@.take(i as int) == all@);
        sinks
    }

    /// The place of the last choice that the step offers.
    pub fn last_choice(&self) -> (last: usize)
        ensures
            last == self.choice_count() - 1,
    {
        match self.step {
            AudioSetupStep::Diagnostics | AudioSetupStep::ConfirmCreation => 0,
            AudioSetupStep::Destination => {
                let sinks = self.virtual_sinks();
                assert(sinks@.unref().len() == sinks@.len());
                sinks.len()
            },
            AudioSetupStep::VirtualSource => {
                if self.compatible_sources.len() == 0 {
                    0
                } else {
                    self.compatible_sources.len() - 1
                }
            },
            AudioSetupStep::PhysicalSource => {
                let sources = &self.diagnostics.inventory.physical_sources;
                if sources.len() == 0 {
                    0
                } else {
                    sources.len() - 1
                }
            },
        }
    }

    /// Selects the next choice, if there is one.
    pub fn select_next(&mut self)
        ensures
            *final(self) == old(self).selecting_next(),
    {
        let last = self.last_choice();
        self.selected_index = if self.selected_index < last {
            self.selected_index + 1
        } else {
            last
        };
    }

    /// Selects the previous choice, if there is one.
    pub fn select_previous(&mut self)
        ensures
            *final(self) == old(self).selecting_previous(),
    {
        self.selected_index = self.selected_index.saturating_sub(1);
    }

    /// Takes new diagnostics; what was chosen is dropped, the step stays.
    pub fn refresh(&mut self, diagnostics: Diagnostics)
        ensures
            final(self).refreshed(*old(self), diagnostics),
    {
        self.selected_index = preferred_destination_index(&diagnostics);
        self.diagnostics = diagnostics;
        self.selected_sink = None;
        self.selected_source = None;
        self.compatible_sources = Vec::new();
        self.error = None;
    }

    /// The setup after it took new diagnostics.
    pub open spec fn refreshed(self, before: AudioSetup, diagnostics: Diagnostics) -> bool {
        &&& self.diagnostics == diagnostics
        &&& self.step == before.step
        &&& self.selected_index == preferred_destination(diagnostics)
        &&& self.selected_sink is None
        &&& self.selected_source is None
        &&& self.compatible_sources@.len() == 0
        &&& self.required == before.required
        &&& self.error is None
    }
}

/// The setup opens at its first step with nothing chosen, and new diagnostics drop what was chosen
/// and leave the step. Both offer an existing virtual sink first where there is one, and the
/// creation of one otherwise.
pub proof fn the_setup_opens_with_nothing_chosen(
    diagnostics: Diagnostics,
    required: bool,
    opened: AudioSetup,
    refreshed_setup: &mut AudioSetup,
    sink: int,
    first: usize,
)
    requires
        call_ensures(AudioSetup::new, (diagnostics, required), opened),
        call_ensures(AudioSetup::refresh, (refreshed_setup, diagnostics), ()),
        call_ensures(preferred_destination_index, (&diagnostics,), first),
    ensures
        opened.step == AudioSetupStep::Diagnostics,
        opened.diagnostics == diagnostics && opened.required == required,
        opened.selected_sink is None && opened.selected_source is None && opened.error is None,
        opened.compatible_sources@.len() == 0,
        opened.selected_index == first,
        final(refreshed_setup).step == old(refreshed_setup).step,
        final(refreshed_setup).required == old(refreshed_setup).required,
        final(refreshed_setup).diagnostics == diagnostics,
        final(refreshed_setup).selected_sink is None
            && final(refreshed_setup).selected_source is None
                && final(refreshed_setup).error is None,
        final(refreshed_setup).selected_index == first,
        0 <= sink < diagnostics.inventory.sinks@.len()
            && diagnostics.inventory.sinks@[sink].is_virtual
            ==> first == 1,
        (forall|i: int|
            0 <= i < diagnostics.inventory.sinks@.len() ==> !(
            #[trigger] diagnostics.inventory.sinks@[i]).is_virtual) ==> first == 0,
{
}

/// The sinks that are offered are the virtual ones, all of them and in their order.
pub proof fn the_virtual_sinks_are_offered(
    setup: AudioSetup,
    sinks: Vec<&AudioNode>,
    at: int,
)
    requires
        call_ensures(AudioSetup::virtual_sinks, (&setup,), sinks),
        0 <= at < setup.diagnostics.inventory.sinks@.len(),
    ensures
        setup.diagnostics.inventory.sinks@[at].is_virtual ==> sinks@.unref().contains(
            setup.diagnostics.inventory.sinks@[at],
        ),
        forall|k: int|
            0 <= k < sinks@.len() ==> (#[trigger] sinks@[k]).is_virtual
                && setup.diagnostics.inventory.sinks@.contains(*sinks@[k]),
{
    let all = setup.diagnostics.inventory.sinks@;
    let wanted = |node: AudioNode| node.is_virtual;
    let kept = all.filter(wanted);
    assert(sinks@.unref() == kept);
    assert(sinks@.unref().len() == sinks@.len());
    if all[at].is_virtual {
        all.lemma_filter_contains(wanted, at);
    }
    assert forall|k: int| 0 <= k < sinks@.len() implies (#[trigger] sinks@[k]).is_virtual
        && all.contains(*sinks@[k]) by {
        assert(sinks@.unref()[k] == *sinks@[k]);
        all.lemma_filter_pred(wanted, k);
        assert(kept.contains(kept[k]));
        all.lemma_filter_contains_rev(wanted, kept[k]);
    }
}

/// The selection goes on and back by one choice of the step, from the first to the last: the
/// creation and each virtual sink, each microphone that follows the sink, each physical microphone.
pub proof fn the_selection_stays_among_the_choices(
    next: &mut AudioSetup,
    previous: &mut AudioSetup,
    sinks: Vec<&AudioNode>,
    last: usize,
)
    requires
        call_ensures(AudioSetup::virtual_sinks, (&*old(next),), sinks),
        call_ensures(AudioSetup::last_choice, (&*old(next),), last),
        call_ensures(AudioSetup::select_next, (next,), ()),
        call_ensures(AudioSetup::select_previous, (previous,), ()),
    ensures
        old(next).step == AudioSetupStep::Destination ==> last == sinks@.len(),
        old(next).step == AudioSetupStep::VirtualSource && old(next).compatible_sources@.len() > 0
            ==> last == old(next).compatible_sources@.len() - 1,
        old(next).step == AudioSetupStep::PhysicalSource
            && old(next).diagnostics.inventory.physical_sources@.len() > 0 ==> last
                == old(next).diagnostics.inventory.physical_sources@.len() - 1,
        old(next).step == AudioSetupStep::Diagnostics || old(next).step
            == AudioSetupStep::ConfirmCreation ==> last == 0,
        old(next).selected_index < last ==> final(next).selected_index == old(next).selected_index
            + 1,
        old(next).selected_index >= last ==> final(next).selected_index == last,
        *final(next) == (AudioSetup {
            selected_index: final(next).selected_index,
            ..*old(next)
        }),
        old(previous).selected_index > 0 ==> final(previous).selected_index
            == old(previous).selected_index - 1,
        old(previous).selected_index == 0 ==> final(previous).selected_index == 0,
        *final(previous) == (AudioSetup {
            selected_index: final(previous).selected_index,
            ..*old(previous)
        }),
{
    assert(sinks@.unref().len() == sinks@.len());
}

} // verus!

//! The decisions of the command line: when `:turn` is implied, how the
//! prompt words become a prompt, and which model events a verbosity shows.
use vstd::prelude::*;
use vstd::seq_lib::group_seq_properties;

use crate::conversation::event::{ModelEvent, ModelEventImportance};
use crate::conversation::{InvalidUserPrompt, UserPrompt};
use crate::text::{join, join_spec, same_text, strip_prefix, trim_spec};

verus! {

/// How many model events the command line prints: low shows important
/// events, medium also interesting ones, high all of them.
#[derive(Clone, Copy, Debug, PartialEq, Eq, Structural)]
pub enum Verbosity {
    Low,
    Medium,
    High,
}

impl Verbosity {
    /// Whether events of importance `importance` are shown.
    pub open spec fn includes_spec(self, importance: ModelEventImportance) -> bool {
        match self {
            Verbosity::Low => importance.rank() >= ModelEventImportance::Important.rank(),
            Verbosity::Medium => importance.rank() >= ModelEventImportance::Interesting.rank(),
            Verbosity::High => true,
        }
    }

    /// Whether events of importance `importance` are shown.
    pub fn includes(self, importance: ModelEventImportance) -> (shown: bool)
        ensures
            shown == self.includes_spec(importance),
    {
        match self {
            Verbosity::Low => importance.at_least(ModelEventImportance::Important),
            Verbosity::Medium => importance.at_least(ModelEventImportance::Interesting),
            Verbosity::High => true,
        }
    }

    /// Low, medium and high show progressively broader sets of events:
    /// whatever a verbosity shows, every higher verbosity shows too, and
    /// high shows everything.
    pub proof fn lemma_verbosity_broadens(importance: ModelEventImportance)
        ensures
            Verbosity::Low.includes_spec(importance) ==> Verbosity::Medium.includes_spec(importance),
            Verbosity::Medium.includes_spec(importance) ==> Verbosity::High.includes_spec(importance),
            Verbosity::High.includes_spec(importance),
            Verbosity::Low.includes_spec(importance) <==> importance == ModelEventImportance::Important,
    {
    }

    /// Whether this verbosity shows `event`.
    pub open spec fn shows(self) -> spec_fn(ModelEvent) -> bool {
        |event: ModelEvent| self.includes_spec(event.importance_spec())
    }

    /// The events of `events` this verbosity shows, in order.
    pub open spec fn visible(self, events: Seq<ModelEvent>) -> Seq<ModelEvent> {
        events.filter(self.shows())
    }

    /// Keeps the events this verbosity shows, in order.
    pub fn retain_visible(self, events: Vec<ModelEvent>) -> (visible: Vec<ModelEvent>)
        ensures
            visible@ == self.visible(events@),
    {
        broadcast use group_seq_properties;

        let ghost given = events@;
        let ghost shown = self.shows();
        let total: usize = events.len();
        let mut remaining = events;
        let mut visible: Vec<ModelEvent> = Vec::new();
        let mut taken: usize = 0;
        assert(given.take(0).filter(shown) =~= Seq::<ModelEvent>::empty()) by {
            reveal(Seq::filter);
        }
        while remaining.len() > 0
            invariant
                total == given.len(),
                shown == self.shows(),
                taken + remaining@.len() == total,
                remaining@ == given.skip(taken as int),
                visible@ == given.take(taken as int).filter(shown),
            decreases remaining.len(),
        {
            let event = remaining.remove(0);
            proof {
                assert(event == given[taken as int]);
                assert(given.take(taken + 1) =~= given.take(taken as int).push(event));
                given.take(taken as int).lemma_filter_push(event, shown);
            }
            let ghost before = visible@;
            if self.includes(event.importance()) {
                visible.push(event);
                assert(shown(event));
                assert(visible@ == before.push(event));
            } else {
                assert(!shown(event));
            }
            taken = taken + 1;
            assert(remaining@ =~= given.skip(taken as int));
        }
        assert(given.take(taken as int) =~= given);
        visible
    }
}

/// Whether a command-line argument names a command or a root option: it
/// starts with `:`, or is `--help`, `-h`, `--version` or `-V`.
pub open spec fn is_command_or_root_option(argument: Seq<char>) -> bool {
    ||| argument.len() > 0 && argument[0] == ':'
    ||| argument == "--help"@
    ||| argument == "-h"@
    ||| argument == "--version"@
    ||| argument == "-V"@
}

/// Whether `:turn` must be inserted before the first argument: unless the
/// first argument (when it is text) names a command or a root option.
pub fn needs_default_command(first_argument: Option<&str>) -> (needed: bool)
    ensures
        needed == !(first_argument matches Some(argument) && is_command_or_root_option(argument@)),
{
    match first_argument {
        None => true,
        Some(argument) => {
            proof {
                reveal_strlit(":");
            }
            let command = match strip_prefix(argument, ":") {
                Some(_) => true,
                None => false,
            };
            assert(command == (argument@.len() > 0 && argument@[0] == ':')) by {
                if argument@.len() > 0 && argument@[0] == ':' {
                    assert(argument@.take(1) =~= ":"@);
                }
                if crate::text::has_prefix(argument@, ":"@) {
                    assert(argument@.take(1)[0] == argument@[0]);
                }
            }
            !(command || same_text(argument, "--help") || same_text(argument, "-h") || same_text(
                argument,
                "--version",
            ) || same_text(argument, "-V"))
        },
    }
}

/// The prompt the words of a turn make: the words joined by spaces, without
/// surrounding white space, and not empty.
pub fn user_prompt_from_words(words: &Vec<String>) -> (result: Result<UserPrompt, InvalidUserPrompt>)
    ensures
        ({
            let text = trim_spec(join_spec(words@.map_values(|w: String| w@), " "@));
            &&& text.len() == 0 ==> result == Err::<UserPrompt, InvalidUserPrompt>(InvalidUserPrompt)
            &&& text.len() > 0 ==> (result matches Ok(prompt) && prompt@ == text)
        }),
{
    let text = join(words, " ");
    UserPrompt::from_str(text.as_str())
}

} // verus!

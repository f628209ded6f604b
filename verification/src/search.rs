//! Finding the first option of a list that meets a condition.

use vstd::prelude::*;
use crate::option::CommandOption;
use crate::option::CommandOptionView;
use crate::option::OptionKind;
use crate::text::same_text;

verus! {

/// The condition "is of kind `kind`".
pub open spec fn of_kind(kind: OptionKind) -> spec_fn(CommandOptionView) -> bool {
    |option: CommandOptionView| option.kind == kind
}

/// The condition "is of kind `kind` and is called `name`".
pub open spec fn named(name: Seq<char>, kind: OptionKind) -> spec_fn(CommandOptionView) -> bool {
    |option: CommandOptionView| option.kind == kind && option.name == name
}

/// The first element of `options` that meets `wanted`, if there is one.
pub open spec fn first_match(
    options: Seq<CommandOptionView>,
    wanted: spec_fn(CommandOptionView) -> bool,
) -> Option<CommandOptionView>
    decreases options.len(),
{
    if options.len() == 0 {
        None
    } else if wanted(options[0]) {
        Some(options[0])
    } else {
        first_match(options.drop_first(), wanted)
    }
}

/// `at` is the least index of `options` whose element meets `wanted`.
pub open spec fn is_first_match(
    options: Seq<CommandOptionView>,
    wanted: spec_fn(CommandOptionView) -> bool,
    at: int,
) -> bool {
    &&& 0 <= at < options.len()
    &&& wanted(options[at])
    &&& forall|before: int| 0 <= before < at ==> !wanted(#[trigger] options[before])
}

/// Where `at` is the least index that meets `wanted`, `first_match` yields
/// the element at `at`.
pub proof fn lemma_first_match_at(
    options: Seq<CommandOptionView>,
    wanted: spec_fn(CommandOptionView) -> bool,
    at: int,
)
    requires
        is_first_match(options, wanted, at),
    ensures
        first_match(options, wanted) == Some(options[at]),
    decreases at,
{
    if at > 0 {
        let rest = options.drop_first();
        assert(!wanted(options[0]));
        assert forall|before: int| 0 <= before < at - 1 implies !wanted(
            #[trigger] rest[before],
        ) by {
            assert(rest[before] == options[before + 1]);
        }
        lemma_first_match_at(rest, wanted, at - 1);
    }
}

/// Where no element meets `wanted`, `first_match` yields nothing.
pub proof fn lemma_first_match_none(
    options: Seq<CommandOptionView>,
    wanted: spec_fn(CommandOptionView) -> bool,
)
    requires
        forall|i: int| 0 <= i < options.len() ==> !wanted(#[trigger] options[i]),
    ensures
        first_match(options, wanted) is None,
    decreases options.len(),
{
    if options.len() > 0 {
        let rest = options.drop_first();
        assert(!wanted(options[0]));
        assert forall|i: int| 0 <= i < rest.len() implies !wanted(#[trigger] rest[i]) by {
            assert(rest[i] == options[i + 1]);
        }
        lemma_first_match_none(rest, wanted);
    }
}

/// What `first_match` yields is the element at the least index that meets
/// `wanted`; it yields nothing only where no element meets it.
pub proof fn lemma_first_match_is_first(
    options: Seq<CommandOptionView>,
    wanted: spec_fn(CommandOptionView) -> bool,
)
    ensures
        match first_match(options, wanted) {
            Some(found) => exists|at: int|
                #[trigger] is_first_match(options, wanted, at) && options[at] == found,
            None => forall|i: int| 0 <= i < options.len() ==> !wanted(#[trigger] options[i]),
        },
    decreases options.len(),
{
    if options.len() == 0 {
    } else if wanted(options[0]) {
        assert(is_first_match(options, wanted, 0));
    } else {
        let rest = options.drop_first();
        lemma_first_match_is_first(rest, wanted);
        match first_match(rest, wanted) {
            Some(found) => {
                let at = choose|at: int|
                    #[trigger] is_first_match(rest, wanted, at) && rest[at] == found;
                assert forall|before: int| 0 <= before < at + 1 implies !wanted(
                    #[trigger] options[before],
                ) by {
                    if before > 0 {
                        assert(options[before] == rest[before - 1]);
                    }
                }
                assert(options[at + 1] == rest[at]);
                assert(is_first_match(options, wanted, at + 1));
            },
            None => {
                assert forall|i: int| 0 <= i < options.len() implies !wanted(
                    #[trigger] options[i],
                ) by {
                    if i > 0 {
                        assert(options[i] == rest[i - 1]);
                    }
                }
            },
        }
    }
}

/// Searching two lists one after the other is searching the first and, only
/// if that yields nothing, the second.
pub proof fn lemma_first_match_concat(
    front: Seq<CommandOptionView>,
    back: Seq<CommandOptionView>,
    wanted: spec_fn(CommandOptionView) -> bool,
)
    ensures
        first_match(front + back, wanted) == match first_match(front, wanted) {
            Some(found) => Some(found),
            None => first_match(back, wanted),
        },
    decreases front.len(),
{
    if front.len() == 0 {
        assert(front + back =~= back);
    } else {
        assert((front + back)[0] == front[0]);
        assert((front + back).drop_first() =~= front.drop_first() + back);
        lemma_first_match_concat(front.drop_first(), back, wanted);
    }
}

/// The first option of `options` that is of kind `kind`.
pub fn find_kind<'a>(options: &'a Vec<CommandOption>, kind: OptionKind) -> (found: Option<
    &'a CommandOption,
>)
    ensures
        found.deep_view() == first_match(options.deep_view(), of_kind(kind)),
{
    let ghost views = options.deep_view();
    let mut i: usize = 0;
    while i < options.len()
        invariant
            i <= options.len(),
            views == options.deep_view(),
            forall|before: int| 0 <= before < i ==> !of_kind(kind)(#[trigger] views[before]),
        decreases options.len() - i,
    {
        let option = &options[i];
        if option.kind == kind {
            proof {
                assert(views[i as int] == option@);
                lemma_first_match_at(views, of_kind(kind), i as int);
            }
            return Some(option);
        }
        assert(views[i as int] == option@);
        i += 1;
    }
    proof {
        lemma_first_match_none(views, of_kind(kind));
    }
    None
}

/// The first option of `options` that is of kind `kind` and is called
/// `name`.
pub fn find_named<'a>(options: &'a Vec<CommandOption>, name: &str, kind: OptionKind) -> (found:
    Option<&'a CommandOption>)
    ensures
        found.deep_view() == first_match(options.deep_view(), named(name@, kind)),
{
    let ghost views = options.deep_view();
    let mut i: usize = 0;
    while i < options.len()
        invariant
            i <= options.len(),
            views == options.deep_view(),
            forall|before: int| 0 <= before < i ==> !named(name@, kind)(#[trigger] views[before]),
        decreases options.len() - i,
    {
        let option = &options[i];
        if option.kind == kind && same_text(option.name.as_str(), name) {
            proof {
                assert(views[i as int] == option@);
                lemma_first_match_at(views, named(name@, kind), i as int);
            }
            return Some(option);
        }
        assert(views[i as int] == option@);
        i += 1;
    }
    proof {
        lemma_first_match_none(views, named(name@, kind));
    }
    None
}

} // verus!

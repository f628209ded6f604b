//! What holds of every payload: which list a lookup by name searches, and
//! when a lookup or a search for a subcommand group yields nothing.

use vstd::prelude::*;
use crate::interaction::value_in;
use crate::interaction::InteractionView;
use crate::option::is_structural;
use crate::option::OptionKind;
use crate::option::ResolvedValueView;
use crate::search::first_match;
use crate::search::is_first_match;
use crate::search::lemma_first_match_concat;
use crate::search::lemma_first_match_is_first;
use crate::search::lemma_first_match_none;
use crate::search::named;
use crate::search::of_kind;

verus! {

/// On a payload that is empty or begins with an option that is neither a
/// subcommand nor a subcommand group, a lookup by name searches exactly the
/// top-level options.
pub proof fn lemma_leaf_in_first_place_searches_top_level(
    payload: InteractionView,
    name: Seq<char>,
    kind: OptionKind,
)
    requires
        payload.options.len() > 0 ==> !is_structural(payload.options[0].kind),
    ensures
        payload.effective_options() == payload.options,
        payload.found(name, kind) == first_match(payload.options, named(name, kind)),
        payload.value(name, kind) == value_in(payload.options, name, kind),
{
}

/// On a payload without a subcommand and without a subcommand group at top
/// level, a lookup by name searches exactly the top-level options.
pub proof fn lemma_flat_payload_searches_top_level(
    payload: InteractionView,
    name: Seq<char>,
    kind: OptionKind,
)
    requires
        forall|i: int|
            0 <= i < payload.options.len() ==> !is_structural(
                (#[trigger] payload.options[i]).kind,
            ),
    ensures
        payload.effective_options() == payload.options,
        payload.found(name, kind) == first_match(payload.options, named(name, kind)),
        payload.value(name, kind) == value_in(payload.options, name, kind),
{
    lemma_leaf_in_first_place_searches_top_level(payload, name, kind);
}

/// On a payload whose first top-level option is a subcommand, a lookup by
/// name searches the children of that subcommand and nothing else.
pub proof fn lemma_subcommand_children_searched(
    payload: InteractionView,
    name: Seq<char>,
    kind: OptionKind,
)
    requires
        payload.options.len() > 0,
        payload.options[0].kind == OptionKind::SubCommand,
    ensures
        payload.effective_options() == payload.options[0].options,
        payload.found(name, kind) == first_match(payload.options[0].options, named(name, kind)),
        payload.value(name, kind) == value_in(payload.options[0].options, name, kind),
{
}

/// Two payloads that begin with the same subcommand answer every lookup by
/// name alike, whatever top-level options follow the subcommand.
pub proof fn lemma_subcommand_siblings_ignored(
    payload: InteractionView,
    other: InteractionView,
    name: Seq<char>,
    kind: OptionKind,
)
    requires
        payload.options.len() > 0,
        other.options.len() > 0,
        payload.options[0] == other.options[0],
        payload.options[0].kind == OptionKind::SubCommand,
    ensures
        payload.found(name, kind) == other.found(name, kind),
        payload.value(name, kind) == other.value(name, kind),
        payload.resolvable(name, kind) == other.resolvable(name, kind),
{
}

/// On a payload whose first top-level option is a subcommand group, a lookup
/// by name searches the children of the first child of that group and
/// nothing else.
pub proof fn lemma_group_first_child_searched(
    payload: InteractionView,
    name: Seq<char>,
    kind: OptionKind,
)
    requires
        payload.options.len() > 0,
        payload.options[0].kind == OptionKind::SubCommandGroup,
        payload.options[0].options.len() > 0,
    ensures
        payload.effective_options() == payload.options[0].options[0].options,
        payload.found(name, kind) == first_match(
            payload.options[0].options[0].options,
            named(name, kind),
        ),
        payload.value(name, kind) == value_in(payload.options[0].options[0].options, name, kind),
{
}

/// Two payloads that begin with the same subcommand group answer every
/// lookup by name alike, whatever top-level options follow the group.
pub proof fn lemma_group_siblings_ignored(
    payload: InteractionView,
    other: InteractionView,
    name: Seq<char>,
    kind: OptionKind,
)
    requires
        payload.options.len() > 0,
        other.options.len() > 0,
        payload.options[0] == other.options[0],
        payload.options[0].kind == OptionKind::SubCommandGroup,
        payload.options[0].options.len() > 0,
    ensures
        payload.found(name, kind) == other.found(name, kind),
        payload.value(name, kind) == other.value(name, kind),
        payload.resolvable(name, kind) == other.resolvable(name, kind),
{
}

/// Where every option of the effective list that is called `name` is of
/// another kind than `kind`, a lookup of `name` under `kind` is defined and
/// yields nothing.
pub proof fn lemma_kind_mismatch_is_absent(
    payload: InteractionView,
    name: Seq<char>,
    kind: OptionKind,
)
    requires
        payload.group_has_child(),
        forall|i: int|
            0 <= i < payload.effective_options().len()
                && (#[trigger] payload.effective_options()[i]).name == name
                ==> payload.effective_options()[i].kind != kind,
    ensures
        payload.resolvable(name, kind),
        payload.found(name, kind) is None,
        payload.value(name, kind) is None,
        kind == OptionKind::String ==> payload.string(name) is None,
        kind == OptionKind::Integer ==> payload.integer(name) is None,
        kind == OptionKind::Boolean ==> payload.boolean(name) is None,
        kind == OptionKind::User ==> payload.user(name) is None,
        kind == OptionKind::Channel ==> payload.channel(name) is None,
        kind == OptionKind::Role ==> payload.role(name) is None,
        kind == OptionKind::Number ==> payload.number(name) is None,
        kind == OptionKind::Attachment ==> payload.attachment(name) is None,
{
    lemma_first_match_none(payload.effective_options(), named(name, kind));
}

/// The option that a lookup of `name` under `kind` finds is the first
/// option of the effective list that is of kind `kind` and is called `name`.
pub proof fn lemma_found_is_first_of_kind_and_name(
    payload: InteractionView,
    name: Seq<char>,
    kind: OptionKind,
)
    requires
        payload.group_has_child(),
    ensures
        match payload.found(name, kind) {
            Some(found) => {
                &&& found.kind == kind
                &&& found.name == name
                &&& payload.value(name, kind) == found.resolved
                &&& exists|at: int|
                    #[trigger] is_first_match(payload.effective_options(), named(name, kind), at)
                        && payload.effective_options()[at] == found
            },
            None => {
                &&& payload.value(name, kind) is None
                &&& forall|i: int|
                    0 <= i < payload.effective_options().len() ==> !named(name, kind)(
                        #[trigger] payload.effective_options()[i],
                    )
            },
        },
{
    lemma_first_match_is_first(payload.effective_options(), named(name, kind));
}

/// A typed accessor yields a payload only from an option of its own kind
/// whose resolved value is of the matching shape, and then that value's
/// payload.
pub proof fn lemma_typed_lookup_reads_matching_value(payload: InteractionView, name: Seq<char>)
    requires
        payload.group_has_child(),
    ensures
        payload.string(name) matches Some(text) ==> payload.found(name, OptionKind::String)
            matches Some(found) && found.resolved == Some(ResolvedValueView::String(text)),
        payload.integer(name) matches Some(number) ==> payload.found(name, OptionKind::Integer)
            matches Some(found) && found.resolved == Some(ResolvedValueView::Integer(number)),
        payload.boolean(name) matches Some(flag) ==> payload.found(name, OptionKind::Boolean)
            matches Some(found) && found.resolved == Some(ResolvedValueView::Boolean(flag)),
        payload.user(name) matches Some(pair) ==> payload.found(name, OptionKind::User)
            matches Some(found) && found.resolved == Some(ResolvedValueView::User(pair.0, pair.1)),
        payload.channel(name) matches Some(channel) ==> payload.found(name, OptionKind::Channel)
            matches Some(found) && found.resolved == Some(ResolvedValueView::Channel(channel)),
        payload.role(name) matches Some(role) ==> payload.found(name, OptionKind::Role)
            matches Some(found) && found.resolved == Some(ResolvedValueView::Role(role)),
        payload.number(name) matches Some(bits) ==> payload.found(name, OptionKind::Number)
            matches Some(found) && found.resolved == Some(ResolvedValueView::Number(bits)),
        payload.attachment(name) matches Some(attachment) ==> payload.found(
            name,
            OptionKind::Attachment,
        ) matches Some(found) && found.resolved == Some(
            ResolvedValueView::Attachment(attachment),
        ),
{
}

/// A search for the subcommand group yields nothing exactly where no
/// top-level option is a subcommand group, whatever the nested options are;
/// what it yields is a top-level subcommand group.
pub proof fn lemma_subcommand_group_is_top_level(payload: InteractionView)
    ensures
        payload.subcommand_group() is None <==> forall|i: int|
            0 <= i < payload.options.len() ==> (#[trigger] payload.options[i]).kind
                != OptionKind::SubCommandGroup,
        payload.subcommand_group() matches Some(group) ==> group.kind == OptionKind::SubCommandGroup
            && payload.options.contains(group),
{
    let wanted = of_kind(OptionKind::SubCommandGroup);
    lemma_first_match_is_first(payload.options, wanted);
    if payload.subcommand_group() is Some {
        let at = choose|at: int|
            #[trigger] is_first_match(payload.options, wanted, at) && payload.options[at]
                == payload.subcommand_group()->0;
        assert(wanted(payload.options[at]));
    }
}

/// A subcommand at top level is found before any subcommand of the group;
/// without one, the first subcommand among the children of the first
/// top-level subcommand group is found.
pub proof fn lemma_subcommand_prefers_top_level(payload: InteractionView)
    ensures
        payload.subcommand() == match first_match(
            payload.options,
            of_kind(OptionKind::SubCommand),
        ) {
            Some(subcommand) => Some(subcommand),
            None => match payload.subcommand_group() {
                Some(group) => first_match(group.options, of_kind(OptionKind::SubCommand)),
                None => None,
            },
        },
        payload.subcommand() matches Some(subcommand) ==> subcommand.kind
            == OptionKind::SubCommand,
{
    let wanted = of_kind(OptionKind::SubCommand);
    match payload.subcommand_group() {
        Some(group) => {
            lemma_first_match_concat(payload.options, group.options, wanted);
        },
        None => {},
    }
    lemma_first_match_is_first(payload.subcommand_candidates(), wanted);
    if payload.subcommand() is Some {
        let at = choose|at: int|
            #[trigger] is_first_match(payload.subcommand_candidates(), wanted, at)
                && payload.subcommand_candidates()[at] == payload.subcommand()->0;
        assert(wanted(payload.subcommand_candidates()[at]));
    }
}

/// On a well-formed payload every lookup under a kind that carries a value
/// is defined.
pub proof fn lemma_well_formed_is_resolvable(
    payload: InteractionView,
    name: Seq<char>,
    kind: OptionKind,
)
    requires
        payload.well_formed(),
        !is_structural(kind),
    ensures
        payload.resolvable(name, kind),
{
    let searched = payload.effective_options();
    lemma_first_match_is_first(searched, named(name, kind));
    if payload.found(name, kind) is Some {
        let found = payload.found(name, kind)->0;
        let at = choose|at: int|
            #[trigger] is_first_match(searched, named(name, kind), at) && searched[at] == found;
        assert(named(name, kind)(searched[at]));
        if payload.options.len() > 0 {
            let first = payload.options[0];
            assert(first.leaves_resolved());
            if first.kind == OptionKind::SubCommand {
                assert(first.options[at].leaves_resolved());
            } else if first.kind == OptionKind::SubCommandGroup {
                assert(first.options[0].leaves_resolved());
                assert(first.options[0].options[at].leaves_resolved());
            } else {
                assert(payload.options[at].leaves_resolved());
            }
        }
    }
}

} // verus!

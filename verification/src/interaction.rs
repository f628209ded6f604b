//! The interaction payload and the accessors that read typed option values
//! out of it.

use vstd::prelude::*;
use serenity::model::channel::Attachment;
use serenity::model::channel::PartialChannel;
use serenity::model::guild::PartialMember;
use serenity::model::guild::Role;
use serenity::model::user::User;
use crate::option::clone_options;
use crate::option::lemma_children_model;
use crate::option::CommandOption;
use crate::option::CommandOptionView;
use crate::option::OptionKind;
use crate::option::ResolvedValue;
use crate::option::ResolvedValueView;
use crate::search::find_kind;
use crate::search::find_named;
use crate::search::first_match;
use crate::search::is_first_match;
use crate::search::lemma_first_match_concat;
use crate::search::lemma_first_match_is_first;
use crate::search::named;
use crate::search::of_kind;

verus! {

/// A command invocation: the ordered top-level options of its payload.
#[derive(Debug)]
pub struct Interaction {
    pub options: Vec<CommandOption>,
}

/// What an `Interaction` stands for.
pub struct InteractionView {
    pub options: Seq<CommandOptionView>,
}

impl View for Interaction {
    type V = InteractionView;

    open spec fn view(&self) -> InteractionView {
        InteractionView { options: self.options.deep_view() }
    }
}

impl Clone for Interaction {
    fn clone(&self) -> (copy: Self)
        ensures
            copy@ == self@,
    {
        Interaction { options: clone_options(&self.options) }
    }
}

/// The resolved value of the first option of `options` that is of kind
/// `kind` and is called `name`.
pub open spec fn value_in(options: Seq<CommandOptionView>, name: Seq<char>, kind: OptionKind)
    -> Option<ResolvedValueView> {
    match first_match(options, named(name, kind)) {
        Some(found) => found.resolved,
        None => None,
    }
}

impl InteractionView {
    /// A subcommand group in first place has a first child.
    pub open spec fn group_has_child(self) -> bool {
        self.options.len() > 0 && self.options[0].kind == OptionKind::SubCommandGroup
            ==> self.options[0].options.len() > 0
    }

    /// The list that a lookup by name searches: the children of a subcommand
    /// in first place, the children of the first child of a subcommand group
    /// in first place, and the top-level options themselves otherwise.
    pub open spec fn effective_options(self) -> Seq<CommandOptionView>
        recommends
            self.group_has_child(),
    {
        if self.options.len() == 0 {
            self.options
        } else {
            match self.options[0].kind {
                OptionKind::SubCommand => self.options[0].options,
                OptionKind::SubCommandGroup => self.options[0].options[0].options,
                _ => self.options,
            }
        }
    }

    /// The option that a lookup of `name` under `kind` finds.
    pub open spec fn found(self, name: Seq<char>, kind: OptionKind) -> Option<CommandOptionView>
        recommends
            self.group_has_child(),
    {
        first_match(self.effective_options(), named(name, kind))
    }

    /// A lookup of `name` under `kind` is defined: the effective list exists,
    /// and the option found, if any, carries a resolved value.
    pub open spec fn resolvable(self, name: Seq<char>, kind: OptionKind) -> bool {
        &&& self.group_has_child()
        &&& self.found(name, kind) matches Some(found) ==> found.resolved is Some
    }

    /// The resolved value that a lookup of `name` under `kind` yields.
    pub open spec fn value(self, name: Seq<char>, kind: OptionKind) -> Option<ResolvedValueView>
        recommends
            self.group_has_child(),
    {
        value_in(self.effective_options(), name, kind)
    }

    /// The text that a lookup of `name` as a string yields.
    pub open spec fn string(self, name: Seq<char>) -> Option<Seq<char>>
        recommends
            self.group_has_child(),
    {
        match self.value(name, OptionKind::String) {
            Some(ResolvedValueView::String(text)) => Some(text),
            _ => None,
        }
    }

    /// The integer that a lookup of `name` as an integer yields.
    pub open spec fn integer(self, name: Seq<char>) -> Option<i64>
        recommends
            self.group_has_child(),
    {
        match self.value(name, OptionKind::Integer) {
            Some(ResolvedValueView::Integer(number)) => Some(number),
            _ => None,
        }
    }

    /// The truth value that a lookup of `name` as a boolean yields.
    pub open spec fn boolean(self, name: Seq<char>) -> Option<bool>
        recommends
            self.group_has_child(),
    {
        match self.value(name, OptionKind::Boolean) {
            Some(ResolvedValueView::Boolean(flag)) => Some(flag),
            _ => None,
        }
    }

    /// The user, and the member data with it, that a lookup of `name` as a user
    /// yields.
    pub open spec fn user(self, name: Seq<char>) -> Option<(User, Option<PartialMember>)>
        recommends
            self.group_has_child(),
    {
        match self.value(name, OptionKind::User) {
            Some(ResolvedValueView::User(user, member)) => Some((user, member)),
            _ => None,
        }
    }

    /// The channel that a lookup of `name` as a channel yields.
    pub open spec fn channel(self, name: Seq<char>) -> Option<PartialChannel>
        recommends
            self.group_has_child(),
    {
        match self.value(name, OptionKind::Channel) {
            Some(ResolvedValueView::Channel(channel)) => Some(channel),
            _ => None,
        }
    }

    /// The role that a lookup of `name` as a role yields.
    pub open spec fn role(self, name: Seq<char>) -> Option<Role>
        recommends
            self.group_has_child(),
    {
        match self.value(name, OptionKind::Role) {
            Some(ResolvedValueView::Role(role)) => Some(role),
            _ => None,
        }
    }

    /// The bit pattern of the number that a lookup of `name` as a number
    /// yields.
    pub open spec fn number(self, name: Seq<char>) -> Option<u64>
        recommends
            self.group_has_child(),
    {
        match self.value(name, OptionKind::Number) {
            Some(ResolvedValueView::Number(bits)) => Some(bits),
            _ => None,
        }
    }

    /// The attachment that a lookup of `name` as an attachment yields.
    pub open spec fn attachment(self, name: Seq<char>) -> Option<Attachment>
        recommends
            self.group_has_child(),
    {
        match self.value(name, OptionKind::Attachment) {
            Some(ResolvedValueView::Attachment(attachment)) => Some(attachment),
            _ => None,
        }
    }

    /// The payload is of the shape that the accessors are written for: a
    /// subcommand group in first place has a first child, and every leaf
    /// option carries a resolved value.
    pub open spec fn well_formed(self) -> bool {
        &&& self.group_has_child()
        &&& forall|i: int|
            0 <= i < self.options.len() ==> (#[trigger] self.options[i]).leaves_resolved()
    }

    /// The first top-level option that is a subcommand group.
    pub open spec fn subcommand_group(self) -> Option<CommandOptionView> {
        first_match(self.options, of_kind(OptionKind::SubCommandGroup))
    }

    /// The list that `subcommand` searches: the top-level options, followed
    /// by the children of the first top-level subcommand group.
    pub open spec fn subcommand_candidates(self) -> Seq<CommandOptionView> {
        match self.subcommand_group() {
            Some(group) => self.options + group.options,
            None => self.options,
        }
    }

    /// The first subcommand among the candidates.
    pub open spec fn subcommand(self) -> Option<CommandOptionView> {
        first_match(self.subcommand_candidates(), of_kind(OptionKind::SubCommand))
    }
}

/// The list of options that a lookup by name searches.
fn effective_options(interaction: &Interaction) -> (options: &Vec<CommandOption>)
    requires
        interaction@.group_has_child(),
    ensures
        options.deep_view() == interaction@.effective_options(),
{
    if interaction.options.len() == 0 {
        return &interaction.options;
    }
    let first = &interaction.options[0];
    assert(interaction@.options[0] == first@);
    match first.kind {
        OptionKind::SubCommand => {
            proof {
                lemma_children_model(first);
            }
            &first.options
        },
        OptionKind::SubCommandGroup => {
            let inner = &first.options[0];
            proof {
                lemma_children_model(first);
                lemma_children_model(inner);
            }
            &inner.options
        },
        _ => &interaction.options,
    }
}

/// Whether a lookup of `name` under `kind` is defined on `interaction`.
pub fn can_resolve(interaction: &Interaction, name: &str, kind: OptionKind) -> (defined: bool)
    ensures
        defined == interaction@.resolvable(name@, kind),
{
    if interaction.options.len() > 0 {
        let first = &interaction.options[0];
        assert(interaction@.options[0] == first@);
        if first.kind == OptionKind::SubCommandGroup && first.options.len() == 0 {
            return false;
        }
    }
    match find_named(effective_options(interaction), name, kind) {
        Some(found) => found.resolved.is_some(),
        None => true,
    }
}

/// The resolved value of the option called `name` of kind `kind`, looked up
/// in the effective list of `interaction`.
pub fn get_value<'a>(interaction: &'a Interaction, name: &str, kind: OptionKind) -> (value:
    Option<&'a ResolvedValue>)
    requires
        interaction@.resolvable(name@, kind),
    ensures
        value.deep_view() == interaction@.value(name@, kind),
        value is Some <==> interaction@.found(name@, kind) is Some,
{
    match find_named(effective_options(interaction), name, kind) {
        Some(found) => found.resolved.as_ref(),
        None => None,
    }
}

/// Typed accessors for the options of a command invocation.
///
/// A lookup by name searches the effective list of the payload for the first
/// option of the requested kind with that name and reads its resolved value.
/// Where no such option exists, or its value is of another shape than the
/// kind asks for, the lookup yields nothing. A lookup is defined where
/// `resolvable` holds of the name and the kind; `can_resolve` tests that.
pub trait InteractionCustomGet {
    /// The payload that the accessors read.
    spec fn payload(&self) -> InteractionView;

    /// The first subcommand among the top-level options followed by the
    /// children of the first top-level subcommand group.
    fn get_subcommand(&self) -> (found: Option<CommandOption>)
        ensures
            found.deep_view() == self.payload().subcommand(),
    ;

    /// The first top-level option that is a subcommand group; nothing
    /// exactly where no top-level option is one.
    fn get_subcommand_group(&self) -> (found: Option<CommandOption>)
        ensures
            found.deep_view() == self.payload().subcommand_group(),
            found is None <==> forall|i: int|
                0 <= i < self.payload().options.len()
                    ==> (#[trigger] self.payload().options[i]).kind != OptionKind::SubCommandGroup,
    ;

    /// The text of the string option called `name`.
    fn get_string(&self, name: &str) -> (text: Option<String>)
        requires
            self.payload().resolvable(name@, OptionKind::String),
        ensures
            text.deep_view() == self.payload().string(name@),
    ;

    /// The value of the integer option called `name`.
    fn get_integer(&self, name: &str) -> (number: Option<i64>)
        requires
            self.payload().resolvable(name@, OptionKind::Integer),
        ensures
            number == self.payload().integer(name@),
    ;

    /// The value of the boolean option called `name`.
    fn get_bool(&self, name: &str) -> (flag: Option<bool>)
        requires
            self.payload().resolvable(name@, OptionKind::Boolean),
        ensures
            flag == self.payload().boolean(name@),
    ;

    /// The user of the user option called `name`, with the member data that
    /// came with it.
    fn get_user(&self, name: &str) -> (user: Option<(User, Option<PartialMember>)>)
        requires
            self.payload().resolvable(name@, OptionKind::User),
        ensures
            user == self.payload().user(name@),
    ;

    /// The channel of the channel option called `name`.
    fn get_channel(&self, name: &str) -> (channel: Option<PartialChannel>)
        requires
            self.payload().resolvable(name@, OptionKind::Channel),
        ensures
            channel == self.payload().channel(name@),
    ;

    /// The role of the role option called `name`.
    fn get_role(&self, name: &str) -> (role: Option<Role>)
        requires
            self.payload().resolvable(name@, OptionKind::Role),
        ensures
            role == self.payload().role(name@),
    ;

    /// The number of the number option called `name`, as its IEEE 754 bit
    /// pattern.
    fn get_number(&self, name: &str) -> (bits: Option<u64>)
        requires
            self.payload().resolvable(name@, OptionKind::Number),
        ensures
            bits == self.payload().number(name@),
    ;

    /// The attachment of the attachment option called `name`.
    fn get_attachment(&self, name: &str) -> (attachment: Option<Attachment>)
        requires
            self.payload().resolvable(name@, OptionKind::Attachment),
        ensures
            attachment == self.payload().attachment(name@),
    ;
}

impl InteractionCustomGet for Interaction {
    open spec fn payload(&self) -> InteractionView {
        self@
    }

    fn get_subcommand(&self) -> (found: Option<CommandOption>) {
        let group = find_kind(&self.options, OptionKind::SubCommandGroup);
        proof {
            match group {
                Some(group) => {
                    lemma_children_model(group);
                    lemma_first_match_concat(
                        self@.options,
                        group@.options,
                        of_kind(OptionKind::SubCommand),
                    );
                },
                None => {},
            }
        }
        if let Some(subcommand) = find_kind(&self.options, OptionKind::SubCommand) {
            return Some(subcommand.clone());
        }
        match group {
            Some(group) => match find_kind(&group.options, OptionKind::SubCommand) {
                Some(subcommand) => Some(subcommand.clone()),
                None => None,
            },
            None => None,
        }
    }

    fn get_subcommand_group(&self) -> (found: Option<CommandOption>) {
        proof {
            lemma_first_match_is_first(self@.options, of_kind(OptionKind::SubCommandGroup));
            if self@.subcommand_group() is Some {
                let at = choose|at: int| #[trigger]
                    is_first_match(self@.options, of_kind(OptionKind::SubCommandGroup), at);
                assert(of_kind(OptionKind::SubCommandGroup)(self@.options[at]));
            }
        }
        match find_kind(&self.options, OptionKind::SubCommandGroup) {
            Some(group) => Some(group.clone()),
            None => None,
        }
    }

    fn get_string(&self, name: &str) -> (text: Option<String>) {
        if let Some(ResolvedValue::String(value)) = get_value(self, name, OptionKind::String) {
            Some(value.clone())
        } else {
            None
        }
    }

    fn get_integer(&self, name: &str) -> (number: Option<i64>) {
        if let Some(ResolvedValue::Integer(value)) = get_value(self, name, OptionKind::Integer) {
            Some(*value)
        } else {
            None
        }
    }

    fn get_bool(&self, name: &str) -> (flag: Option<bool>) {
        if let Some(ResolvedValue::Boolean(value)) = get_value(self, name, OptionKind::Boolean) {
            Some(*value)
        } else {
            None
        }
    }

    fn get_user(&self, name: &str) -> (user: Option<(User, Option<PartialMember>)>) {
        if let Some(ResolvedValue::User(user, member)) = get_value(self, name, OptionKind::User) {
            let member = match member {
                Some(member) => Some(member.clone()),
                None => None,
            };
            Some((user.clone(), member))
        } else {
            None
        }
    }

    fn get_channel(&self, name: &str) -> (channel: Option<PartialChannel>) {
        if let Some(ResolvedValue::Channel(channel)) = get_value(self, name, OptionKind::Channel) {
            Some(channel.clone())
        } else {
            None
        }
    }

    fn get_role(&self, name: &str) -> (role: Option<Role>) {
        if let Some(ResolvedValue::Role(role)) = get_value(self, name, OptionKind::Role) {
            Some(role.clone())
        } else {
            None
        }
    }

    fn get_number(&self, name: &str) -> (bits: Option<u64>) {
        if let Some(ResolvedValue::Number(bits)) = get_value(self, name, OptionKind::Number) {
            Some(*bits)
        } else {
            None
        }
    }

    fn get_attachment(&self, name: &str) -> (attachment: Option<Attachment>) {
        if let Some(ResolvedValue::Attachment(attachment)) = get_value(
            self,
            name,
            OptionKind::Attachment,
        ) {
            Some(attachment.clone())
        } else {
            None
        }
    }
}

} // verus!

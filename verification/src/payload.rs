//! The structured payloads that a resolved option value can carry.
//!
//! The extractor never looks inside a user, member, channel, role or
//! attachment: it finds the option that holds one and hands a copy back. The
//! types are therefore serenity's own, taken as opaque values, and the only
//! thing assumed of them is that `clone` yields an equal value.

use vstd::prelude::*;

verus! {

/// `serenity::model::user::User`, opaque to the verifier.
#[verifier::external_type_specification]
#[verifier::external_body]
pub struct ExUser(serenity::model::user::User);

/// `serenity::model::guild::PartialMember`, opaque to the verifier.
#[verifier::external_type_specification]
#[verifier::external_body]
pub struct ExPartialMember(serenity::model::guild::PartialMember);

/// `serenity::model::channel::PartialChannel`, opaque to the verifier.
#[verifier::external_type_specification]
#[verifier::external_body]
pub struct ExPartialChannel(serenity::model::channel::PartialChannel);

/// `serenity::model::guild::Role`, opaque to the verifier.
#[verifier::external_type_specification]
#[verifier::external_body]
pub struct ExRole(serenity::model::guild::Role);

/// `serenity::model::channel::Attachment`, opaque to the verifier.
#[verifier::external_type_specification]
#[verifier::external_body]
pub struct ExAttachment(serenity::model::channel::Attachment);

/// `Clone::clone` of serenity's `User`, which the type derives: every field
/// is cloned, so the copy is taken to equal the value it was made from.
pub assume_specification[ <serenity::model::user::User as Clone>::clone ](
    user: &serenity::model::user::User,
) -> (copy: serenity::model::user::User)
    ensures
        copy == *user,
;

/// `Clone::clone` of serenity's `PartialMember`, which the type derives:
/// every field is cloned, so the copy is taken to equal the value it was made
/// from.
pub assume_specification[ <serenity::model::guild::PartialMember as Clone>::clone ](
    member: &serenity::model::guild::PartialMember,
) -> (copy: serenity::model::guild::PartialMember)
    ensures
        copy == *member,
;

/// `Clone::clone` of serenity's `PartialChannel`, which the type derives:
/// every field is cloned, so the copy is taken to equal the value it was made
/// from.
pub assume_specification[ <serenity::model::channel::PartialChannel as Clone>::clone ](
    channel: &serenity::model::channel::PartialChannel,
) -> (copy: serenity::model::channel::PartialChannel)
    ensures
        copy == *channel,
;

/// `Clone::clone` of serenity's `Role`, which the type derives: every field
/// is cloned, so the copy is taken to equal the value it was made from.
pub assume_specification[ <serenity::model::guild::Role as Clone>::clone ](
    role: &serenity::model::guild::Role,
) -> (copy: serenity::model::guild::Role)
    ensures
        copy == *role,
;

/// `Clone::clone` of serenity's `Attachment`, which the type derives: every
/// field is cloned, so the copy is taken to equal the value it was made from.
pub assume_specification[ <serenity::model::channel::Attachment as Clone>::clone ](
    attachment: &serenity::model::channel::Attachment,
) -> (copy: serenity::model::channel::Attachment)
    ensures
        copy == *attachment,
;

} // verus!

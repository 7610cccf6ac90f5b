//! Traits, structs and functions related to dungeon mode: the tagged
//! dungeon-entity union with its typed accessors, the effects emitter, and
//! the log-message builder.

use vstd::prelude::*;
use vstd::string::StringSliceAdditionalSpecFns;
use crate::overlay::{CreatableWithLease, OverlayLoadLease};
use crate::string_util::{str_to_cstring, CString};

verus! {

/// The tag of a dungeon entity, as the engine stores it in the entity's
/// type field.
#[derive(Clone, Copy, Debug, PartialEq, Eq, Structural)]
pub enum EntityType {
    Nothing,
    Monster,
    Item,
    Trap,
    HiddenStairs,
}

/// A monster on the dungeon floor.
#[derive(Clone, Copy, Debug, PartialEq, Eq, Structural)]
pub struct DungeonMonster {
    /// The monster's species id.
    pub id: u16,
    /// The monster's level.
    pub level: u8,
    /// Current hit points.
    pub hp: i16,
    /// Maximum hit points.
    pub max_hp: i16,
}

/// An item lying on the dungeon floor.
#[derive(Clone, Copy, Debug, PartialEq, Eq, Structural)]
pub struct DungeonItem {
    /// The item's id.
    pub id: u16,
    /// How many of the item the stack holds.
    pub quantity: u16,
    /// Whether the item is sticky.
    pub sticky: bool,
}

/// A trap on the dungeon floor.
#[derive(Clone, Copy, Debug, PartialEq, Eq, Structural)]
pub struct DungeonTrap {
    /// The trap's id.
    pub id: u8,
    /// Whether the trap is visible to the team.
    pub visible: bool,
}

/// The payload of a dungeon entity: the engine keeps a pointer whose target
/// is decided by the entity's type tag; here it is held as a typed value.
#[derive(Clone, Copy, Debug, PartialEq, Eq, Structural)]
pub enum EntityInfo {
    Nothing,
    Monster(DungeonMonster),
    Item(DungeonItem),
    Trap(DungeonTrap),
    HiddenStairs,
}

/// The tag a payload belongs under.
pub open spec fn tag_of(info: EntityInfo) -> EntityType {
    match info {
        EntityInfo::Nothing => EntityType::Nothing,
        EntityInfo::Monster(_) => EntityType::Monster,
        EntityInfo::Item(_) => EntityType::Item,
        EntityInfo::Trap(_) => EntityType::Trap,
        EntityInfo::HiddenStairs => EntityType::HiddenStairs,
    }
}

/// An entity on the dungeon floor: a type tag together with the payload the
/// tag announces.
#[derive(Clone, Copy, Debug, PartialEq, Eq, Structural)]
pub struct DungeonEntity {
    /// The entity's type tag.
    pub type_: EntityType,
    /// The payload for that tag.
    pub info: EntityInfo,
}

impl DungeonEntity {
    /// A well-formed entity: the tag matches the payload, as the engine
    /// guarantees for every entity it hands out.
    pub open spec fn wf(&self) -> bool {
        self.type_ == tag_of(self.info)
    }

    /// Builds an entity holding a monster.
    pub fn new_monster(m: DungeonMonster) -> (r: Self)
        ensures
            r == (DungeonEntity { type_: EntityType::Monster, info: EntityInfo::Monster(m) }),
            r.wf(),
    {
        DungeonEntity { type_: EntityType::Monster, info: EntityInfo::Monster(m) }
    }

    /// Builds an entity holding an item.
    pub fn new_item(it: DungeonItem) -> (r: Self)
        ensures
            r == (DungeonEntity { type_: EntityType::Item, info: EntityInfo::Item(it) }),
            r.wf(),
    {
        DungeonEntity { type_: EntityType::Item, info: EntityInfo::Item(it) }
    }

    /// Builds an entity holding a trap.
    pub fn new_trap(t: DungeonTrap) -> (r: Self)
        ensures
            r == (DungeonEntity { type_: EntityType::Trap, info: EntityInfo::Trap(t) }),
            r.wf(),
    {
        DungeonEntity { type_: EntityType::Trap, info: EntityInfo::Trap(t) }
    }
}

/// Extension trait for `DungeonEntity`: typed access to the payload behind
/// the entity's type tag.
pub trait DungeonEntityExt {
    /// The entity's type tag.
    spec fn spec_type(&self) -> EntityType;

    /// The entity's payload.
    spec fn spec_info(&self) -> EntityInfo;

    /// The tag matches the payload.
    spec fn spec_wf(&self) -> bool;

    /// This returns the monster info struct for the entity,
    /// or `None` if the entity is not a monster.
    fn info_for_monster(&self) -> (r: Option<&DungeonMonster>)
        requires
            self.spec_wf(),
        ensures
            r is Some <==> self.spec_type() == EntityType::Monster,
            r matches Some(m) ==> self.spec_info() == EntityInfo::Monster(*m),
    ;

    /// This returns the monster info struct for the entity for mutation,
    /// or `None` if the entity is not a monster.
    fn info_for_monster_mut(&mut self) -> (r: Option<&mut DungeonMonster>)
        requires
            old(self).spec_wf(),
        ensures
            r is Some <==> old(self).spec_type() == EntityType::Monster,
            r matches Some(m) ==> old(self).spec_info() == EntityInfo::Monster(*m)
                && final(self).spec_info() == EntityInfo::Monster(*final(m))
                && final(self).spec_type() == old(self).spec_type(),
            r is None ==> final(self).spec_info() == old(self).spec_info()
                && final(self).spec_type() == old(self).spec_type(),
    ;

    /// This returns the item info struct for the entity,
    /// or `None` if the entity is not an item.
    fn info_for_item(&self) -> (r: Option<&DungeonItem>)
        requires
            self.spec_wf(),
        ensures
            r is Some <==> self.spec_type() == EntityType::Item,
            r matches Some(it) ==> self.spec_info() == EntityInfo::Item(*it),
    ;

    /// This returns the trap info struct for the entity,
    /// or `None` if the entity is not a trap.
    fn info_for_trap(&self) -> (r: Option<&DungeonTrap>)
        requires
            self.spec_wf(),
        ensures
            r is Some <==> self.spec_type() == EntityType::Trap,
            r matches Some(t) ==> self.spec_info() == EntityInfo::Trap(*t),
    ;

    /// This returns the item info struct for the entity for mutation,
    /// or `None` if the entity is not an item.
    fn info_for_item_mut(&mut self) -> (r: Option<&mut DungeonItem>)
        requires
            old(self).spec_wf(),
        ensures
            r is Some <==> old(self).spec_type() == EntityType::Item,
            r matches Some(it) ==> old(self).spec_info() == EntityInfo::Item(*it)
                && final(self).spec_info() == EntityInfo::Item(*final(it))
                && final(self).spec_type() == old(self).spec_type(),
            r is None ==> final(self).spec_info() == old(self).spec_info()
                && final(self).spec_type() == old(self).spec_type(),
    ;

    /// This returns the trap info struct for the entity for mutation,
    /// or `None` if the entity is not a trap.
    fn info_for_trap_mut(&mut self) -> (r: Option<&mut DungeonTrap>)
        requires
            old(self).spec_wf(),
        ensures
            r is Some <==> old(self).spec_type() == EntityType::Trap,
            r matches Some(t) ==> old(self).spec_info() == EntityInfo::Trap(*t)
                && final(self).spec_info() == EntityInfo::Trap(*final(t))
                && final(self).spec_type() == old(self).spec_type(),
            r is None ==> final(self).spec_info() == old(self).spec_info()
                && final(self).spec_type() == old(self).spec_type(),
    ;
}

impl DungeonEntityExt for DungeonEntity {
    open spec fn spec_type(&self) -> EntityType {
        self.type_
    }

    open spec fn spec_info(&self) -> EntityInfo {
        self.info
    }

    open spec fn spec_wf(&self) -> bool {
        self.wf()
    }

    fn info_for_monster(&self) -> (r: Option<&DungeonMonster>) {
        if self.type_ == EntityType::Monster {
            match &self.info {
                EntityInfo::Monster(m) => Some(m),
                _ => vstd::pervasive::unreached(),
            }
        } else {
            None
        }
    }

    fn info_for_monster_mut(&mut self) -> (r: Option<&mut DungeonMonster>) {
        if self.type_ == EntityType::Monster {
            match &mut self.info {
                EntityInfo::Monster(m) => Some(m),
                _ => vstd::pervasive::unreached(),
            }
        } else {
            None
        }
    }

    fn info_for_item(&self) -> (r: Option<&DungeonItem>) {
        if self.type_ == EntityType::Item {
            match &self.info {
                EntityInfo::Item(it) => Some(it),
                _ => vstd::pervasive::unreached(),
            }
        } else {
            None
        }
    }

    fn info_for_trap(&self) -> (r: Option<&DungeonTrap>) {
        if self.type_ == EntityType::Trap {
            match &self.info {
                EntityInfo::Trap(t) => Some(t),
                _ => vstd::pervasive::unreached(),
            }
        } else {
            None
        }
    }

    fn info_for_item_mut(&mut self) -> (r: Option<&mut DungeonItem>) {
        if self.type_ == EntityType::Item {
            match &mut self.info {
                EntityInfo::Item(it) => Some(it),
                _ => vstd::pervasive::unreached(),
            }
        } else {
            None
        }
    }

    fn info_for_trap_mut(&mut self) -> (r: Option<&mut DungeonTrap>) {
        if self.type_ == EntityType::Trap {
            match &mut self.info {
                EntityInfo::Trap(t) => Some(t),
                _ => vstd::pervasive::unreached(),
            }
        } else {
            None
        }
    }
}

/// Helper struct for emitting move and item effects.
///
/// The effect routines themselves live in the dungeon overlay of the game
/// binary; this value only witnesses, through its lease, that the overlay is
/// loaded, so that unverified glue may invoke them.
pub struct DungeonEffectsEmitter(OverlayLoadLease<29>);

impl CreatableWithLease<29> for DungeonEffectsEmitter {
    closed spec fn spec_created(lease: OverlayLoadLease<29>) -> Self {
        DungeonEffectsEmitter(lease)
    }

    closed spec fn spec_lease(&self) -> OverlayLoadLease<29> {
        self.0
    }

    proof fn lemma_created_lease(lease: OverlayLoadLease<29>) {
    }

    fn _create(lease: OverlayLoadLease<29>) -> (r: Self) {
        DungeonEffectsEmitter(lease)
    }

    fn lease(&self) -> (r: &OverlayLoadLease<29>) {
        &self.0
    }
}

/// One call into the engine's message log, for a message given by id.
///
/// Each variant names the logging routine of the dungeon overlay that the
/// unverified glue must invoke, together with that routine's arguments.
#[derive(Clone, Copy, Debug, PartialEq)]
pub enum MsgLogCall<'a> {
    /// `LogMessageByIdQuiet`.
    Quiet { user: &'a DungeonEntity, message_id: i32 },
    /// `LogMessageByIdWithPopupCheckUser`.
    WithPopupCheckUser { user: &'a DungeonEntity, message_id: i32 },
    /// `LogMessageByIdQuietCheckUserTarget`.
    QuietCheckUserTarget { user: &'a DungeonEntity, target: &'a DungeonEntity, message_id: i32 },
    /// `LogMessageByIdWithPopup`.
    WithPopup { user: &'a DungeonEntity, message_id: i32 },
    /// `LogMessageByIdWithPopupCheckUserTarget`.
    WithPopupCheckUserTarget {
        user: &'a DungeonEntity,
        target: &'a DungeonEntity,
        message_id: i32,
    },
}

/// One call into the engine's message log, for a message given as text.
///
/// Each variant names the logging routine of the dungeon overlay that the
/// unverified glue must invoke, together with that routine's arguments.
#[derive(Clone, Debug, PartialEq)]
pub enum StrLogCall<'a> {
    /// `LogMessageQuiet`.
    Quiet { user: &'a DungeonEntity, message: CString },
    /// `LogMessageWithPopupCheckUser`.
    WithPopupCheckUser { user: &'a DungeonEntity, message: CString },
    /// `LogMessageWithPopup`.
    WithPopup { user: &'a DungeonEntity, message: CString },
    /// `LogMessageWithPopupCheckUserTarget`.
    WithPopupCheckUserTarget {
        user: &'a DungeonEntity,
        target: &'a DungeonEntity,
        message: CString,
    },
}

/// The id-message logging routine a builder state selects.
pub open spec fn spec_msg_log_call<'a>(
    popup: bool,
    check_user: bool,
    target_check_fainted: Option<&'a DungeonEntity>,
    user: &'a DungeonEntity,
    message_id: i32,
) -> MsgLogCall<'a> {
    match (popup, check_user, target_check_fainted) {
        (false, false, Option::None) => MsgLogCall::Quiet { user, message_id },
        (_, true, Option::None) => MsgLogCall::WithPopupCheckUser { user, message_id },
        (false, _, Option::Some(target)) => MsgLogCall::QuietCheckUserTarget {
            user,
            target,
            message_id,
        },
        (true, false, Option::None) => MsgLogCall::WithPopup { user, message_id },
        (true, _, Option::Some(target)) => MsgLogCall::WithPopupCheckUserTarget {
            user,
            target,
            message_id,
        },
    }
}

/// The text-message logging routine a builder state selects.
pub open spec fn spec_str_log_call<'a>(
    popup: bool,
    check_user: bool,
    target_check_fainted: Option<&'a DungeonEntity>,
    user: &'a DungeonEntity,
    message: CString,
) -> StrLogCall<'a> {
    match (popup, check_user, target_check_fainted) {
        (false, false, Option::None) => StrLogCall::Quiet { user, message },
        (_, true, Option::None) => StrLogCall::WithPopupCheckUser { user, message },
        (true, false, Option::None) => StrLogCall::WithPopup { user, message },
        (_, _, Option::Some(target)) => StrLogCall::WithPopupCheckUserTarget {
            user,
            target,
            message,
        },
    }
}

/// Whether an id-message call goes to one of the engine routines that show
/// a popup.
pub open spec fn msg_call_has_popup(c: MsgLogCall) -> bool {
    match c {
        MsgLogCall::Quiet { .. } => false,
        MsgLogCall::QuietCheckUserTarget { .. } => false,
        _ => true,
    }
}

/// Whether a text-message call goes to one of the engine routines that show
/// a popup.
pub open spec fn str_call_has_popup(c: StrLogCall) -> bool {
    match c {
        StrLogCall::Quiet { .. } => false,
        _ => true,
    }
}

/// When a message by id reaches a popup routine: with no target set, asking
/// for a popup or for the user fainting check suffices; with a target set,
/// only asking for a popup does.
pub proof fn lemma_msg_log_popup_rule<'a>(
    popup: bool,
    check_user: bool,
    target_check_fainted: Option<&'a DungeonEntity>,
    user: &'a DungeonEntity,
    message_id: i32,
)
    ensures
        msg_call_has_popup(
            spec_msg_log_call(popup, check_user, target_check_fainted, user, message_id),
        ) <==> (target_check_fainted is None && (popup || check_user)) || (
        target_check_fainted is Some && popup),
{
}

/// When a text message reaches a popup routine: as soon as a popup, the user
/// fainting check, or a target is set. Only a builder with none of the three
/// logs text quietly.
pub proof fn lemma_str_log_popup_rule<'a>(
    popup: bool,
    check_user: bool,
    target_check_fainted: Option<&'a DungeonEntity>,
    user: &'a DungeonEntity,
    message: CString,
)
    ensures
        str_call_has_popup(
            spec_str_log_call(popup, check_user, target_check_fainted, user, message),
        ) <==> popup || check_user || target_check_fainted is Some,
{
}

/// Builder for creating dungeon message log messages.
///
/// By default the message will be shown 'quiet', meaning there will be no
/// popup shown when the message is logged. You can force a popup to be shown
/// with `Self::popup`, but note that with some configurations a popup is
/// always displayed, even if `Self::popup` is not called: which routine each
/// state selects is stated exactly by `spec_msg_log_call` and
/// `spec_str_log_call`.
///
/// Building a message yields the call the engine is to perform; the
/// unverified glue that owns the raw entity pointers carries it out.
pub struct LogMessageBuilder<'a> {
    _lease: OverlayLoadLease<29>,
    popup: bool,
    check_user: bool,
    target_check_fainted: Option<&'a DungeonEntity>,
}

impl<'a> CreatableWithLease<29> for LogMessageBuilder<'a> {
    closed spec fn spec_created(lease: OverlayLoadLease<29>) -> Self {
        LogMessageBuilder {
            _lease: lease,
            popup: false,
            check_user: false,
            target_check_fainted: None,
        }
    }

    closed spec fn spec_lease(&self) -> OverlayLoadLease<29> {
        self._lease
    }

    proof fn lemma_created_lease(lease: OverlayLoadLease<29>) {
    }

    fn _create(lease: OverlayLoadLease<29>) -> (r: Self) {
        LogMessageBuilder {
            _lease: lease,
            popup: false,
            check_user: false,
            target_check_fainted: None,
        }
    }

    fn lease(&self) -> (r: &OverlayLoadLease<29>) {
        &self._lease
    }
}

/// A freshly built `LogMessageBuilder` is quiet: no popup is forced, no
/// fainting check is set, and no target is set.
pub proof fn lemma_fresh_log_message_builder<'a>(lease: OverlayLoadLease<29>)
    ensures
        <LogMessageBuilder<'a> as CreatableWithLease<29>>::spec_created(lease).spec_popup()
            == false,
        <LogMessageBuilder<'a> as CreatableWithLease<29>>::spec_created(lease).spec_check_user()
            == false,
        <LogMessageBuilder<'a> as CreatableWithLease<29>>::spec_created(lease).spec_target()
            is None,
{
}

impl<'a> LogMessageBuilder<'a> {
    /// Whether a popup is forced for the message.
    pub closed spec fn spec_popup(&self) -> bool {
        self.popup
    }

    /// Whether the message is withheld when the user is fainted.
    pub closed spec fn spec_check_user(&self) -> bool {
        self.check_user
    }

    /// The target whose fainting withholds the message, if one was set.
    pub closed spec fn spec_target(&self) -> Option<&'a DungeonEntity> {
        self.target_check_fainted
    }

    /// Show a message popup when the message is displayed.
    pub fn popup(&mut self) -> (r: &mut Self)
        ensures
            r.spec_popup() == true,
            r.spec_check_user() == old(self).spec_check_user(),
            r.spec_target() == old(self).spec_target(),
            r.spec_lease() == old(self).spec_lease(),
            *final(self) == *final(r),
    {
        self.popup = true;
        self
    }

    /// Do not show the message if the user is fainted.
    ///
    /// # Note
    /// `target_check_fainted` will take precedence over this, both can not be
    /// active at the same time.
    pub fn check_user_fainted(&'a mut self) -> (r: &'a mut Self)
        ensures
            r.spec_check_user() == true,
            r.spec_popup() == old(self).spec_popup(),
            r.spec_target() == old(self).spec_target(),
            r.spec_lease() == old(self).spec_lease(),
            *final(self) == *final(r),
    {
        self.check_user = true;
        self
    }

    /// Do not show the message if the target is fainted and an unknown check
    /// regarding the user passes.
    pub fn target_check_fainted(
        &'a mut self,
        _user: &'a DungeonEntity,
        target: &'a DungeonEntity,
    ) -> (r: &'a mut Self)
        ensures
            r.spec_target() == Some(target),
            r.spec_popup() == old(self).spec_popup(),
            r.spec_check_user() == old(self).spec_check_user(),
            r.spec_lease() == old(self).spec_lease(),
            *final(self) == *final(r),
    {
        self.target_check_fainted = Some(target);
        self
    }

    /// Builds a log entry for the message with the given message id: which
    /// logging routine of the engine the builder state selects, with its
    /// arguments. The unverified glue performs the call.
    pub fn log_msg(&mut self, user: &'a DungeonEntity, message_id: i32) -> (r: MsgLogCall<'a>)
        ensures
            r == spec_msg_log_call(
                old(self).spec_popup(),
                old(self).spec_check_user(),
                old(self).spec_target(),
                user,
                message_id,
            ),
            *final(self) == *old(self),
    {
        match (self.popup, self.check_user, self.target_check_fainted) {
            (false, false, None) => MsgLogCall::Quiet { user, message_id },
            (_, true, None) => MsgLogCall::WithPopupCheckUser { user, message_id },
            (false, _, Some(target)) => MsgLogCall::QuietCheckUserTarget {
                user,
                target,
                message_id,
            },
            (true, false, None) => MsgLogCall::WithPopup { user, message_id },
            (true, _, Some(target)) => MsgLogCall::WithPopupCheckUserTarget {
                user,
                target,
                message_id,
            },
        }
    }

    /// Builds a log entry for a message already in NUL-terminated form:
    /// which logging routine of the engine the builder state selects, with
    /// its arguments. The unverified glue performs the call.
    pub fn log_cstr(&mut self, user: &'a DungeonEntity, message: CString) -> (r: StrLogCall<'a>)
        ensures
            r == spec_str_log_call(
                old(self).spec_popup(),
                old(self).spec_check_user(),
                old(self).spec_target(),
                user,
                message,
            ),
            *final(self) == *old(self),
    {
        match (self.popup, self.check_user, self.target_check_fainted) {
            (false, false, None) => StrLogCall::Quiet { user, message },
            (_, true, None) => StrLogCall::WithPopupCheckUser { user, message },
            (true, false, None) => StrLogCall::WithPopup { user, message },
            (_, _, Some(target)) => StrLogCall::WithPopupCheckUserTarget {
                user,
                target,
                message,
            },
        }
    }

    /// Builds a log entry for a text message, converting it to its
    /// NUL-terminated form first. The message must be free of interior NUL
    /// bytes; `crate::string_util::try_str_to_cstring` tells the two cases
    /// apart.
    pub fn log_str(&mut self, user: &'a DungeonEntity, message: &str) -> (r: StrLogCall<'a>)
        requires
            forall|i: int|
                0 <= i < message.spec_bytes().len() ==> message.spec_bytes()[i] != 0,
        ensures
            *final(self) == *old(self),
            ({
                let mv = message.spec_bytes().push(0);
                match (old(self).spec_popup(), old(self).spec_check_user(), old(
                    self,
                ).spec_target()) {
                    (false, false, Option::None) => r matches StrLogCall::Quiet {
                        user: u,
                        message: m,
                    } && u == user && m@ == mv,
                    (_, true, Option::None) => r matches StrLogCall::WithPopupCheckUser {
                        user: u,
                        message: m,
                    } && u == user && m@ == mv,
                    (true, false, Option::None) => r matches StrLogCall::WithPopup {
                        user: u,
                        message: m,
                    } && u == user && m@ == mv,
                    (_, _, Option::Some(t)) => r matches StrLogCall::WithPopupCheckUserTarget {
                        user: u,
                        target: tg,
                        message: m,
                    } && u == user && tg == t && m@ == mv,
                }
            }),
    {
        self.log_cstr(user, str_to_cstring(message))
    }
}

} // verus!

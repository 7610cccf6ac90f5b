use eos_rs::dungeon_mode::{
    DungeonEffectsEmitter, DungeonEntity, DungeonMonster, LogMessageBuilder, MsgLogCall,
    StrLogCall,
};
use eos_rs::overlay::{CreatableWithLease, OverlayLoadLease};
use eos_rs::string_util::str_to_cstring;

fn user() -> DungeonEntity {
    DungeonEntity::new_monster(DungeonMonster { id: 1, level: 5, hp: 20, max_hp: 20 })
}

fn target() -> DungeonEntity {
    DungeonEntity::new_monster(DungeonMonster { id: 4, level: 7, hp: 15, max_hp: 18 })
}

fn lease() -> OverlayLoadLease<29> {
    OverlayLoadLease::acquire_unchecked()
}

#[test]
fn fresh_builder_logs_quiet() {
    let u = user();
    let mut b = LogMessageBuilder::new(lease());
    let call = b.log_msg(&u, 42);
    assert_eq!(call, MsgLogCall::Quiet { user: &u, message_id: 42 });
}

#[test]
fn popup_builder_logs_with_popup() {
    let u = user();
    let mut b = LogMessageBuilder::new(lease());
    b.popup();
    let call = b.log_msg(&u, 7);
    assert_eq!(call, MsgLogCall::WithPopup { user: &u, message_id: 7 });
}

#[test]
fn check_user_takes_precedence_over_popup() {
    let u = user();
    let mut b = LogMessageBuilder::new(lease());
    b.popup();
    let call = b.check_user_fainted().log_msg(&u, 9);
    assert_eq!(call, MsgLogCall::WithPopupCheckUser { user: &u, message_id: 9 });
}

#[test]
fn check_user_alone_logs_with_popup_check_user() {
    let u = user();
    let mut b = LogMessageBuilder::new(lease());
    let call = b.check_user_fainted().log_msg(&u, 3);
    assert_eq!(call, MsgLogCall::WithPopupCheckUser { user: &u, message_id: 3 });
}

#[test]
fn quiet_target_check_logs_quiet_check_user_target() {
    let u = user();
    let t = target();
    let mut b = LogMessageBuilder::new(lease());
    let call = b.target_check_fainted(&u, &t).log_msg(&u, 11);
    assert_eq!(
        call,
        MsgLogCall::QuietCheckUserTarget { user: &u, target: &t, message_id: 11 }
    );
}

#[test]
fn popup_and_target_check_logs_with_popup_check_user_target() {
    let u = user();
    let t = target();
    let mut b = LogMessageBuilder::new(lease());
    b.popup();
    let call = b.target_check_fainted(&u, &t).log_msg(&u, 13);
    assert_eq!(
        call,
        MsgLogCall::WithPopupCheckUserTarget { user: &u, target: &t, message_id: 13 }
    );
}

#[test]
fn fresh_builder_logs_text_quiet() {
    let u = user();
    let mut b = LogMessageBuilder::new(lease());
    let call = b.log_str(&u, "It hit!");
    assert_eq!(
        call,
        StrLogCall::Quiet { user: &u, message: str_to_cstring("It hit!") }
    );
}

#[test]
fn quiet_target_check_logs_text_with_popup_check_user_target() {
    // For text messages there is no quiet routine with a target check: a set
    // target routes to the popup variant even when no popup was asked for.
    let u = user();
    let t = target();
    let mut b = LogMessageBuilder::new(lease());
    let call = b.target_check_fainted(&u, &t).log_str(&u, "It fainted.");
    assert_eq!(
        call,
        StrLogCall::WithPopupCheckUserTarget {
            user: &u,
            target: &t,
            message: str_to_cstring("It fainted."),
        }
    );
}

#[test]
fn popup_builder_logs_text_with_popup() {
    let u = user();
    let mut b = LogMessageBuilder::new(lease());
    b.popup();
    let call = b.log_cstr(&u, str_to_cstring("Boom"));
    assert_eq!(
        call,
        StrLogCall::WithPopup { user: &u, message: str_to_cstring("Boom") }
    );
}

#[test]
fn check_user_builder_logs_text_with_popup_check_user() {
    let u = user();
    let mut b = LogMessageBuilder::new(lease());
    let call = b.check_user_fainted().log_cstr(&u, str_to_cstring("Ouch"));
    assert_eq!(
        call,
        StrLogCall::WithPopupCheckUser { user: &u, message: str_to_cstring("Ouch") }
    );
}

#[test]
fn builder_keeps_its_lease() {
    let b = LogMessageBuilder::new(lease());
    let _l: &OverlayLoadLease<29> = b.lease();
}

#[test]
fn emitter_keeps_its_lease() {
    let e = DungeonEffectsEmitter::new(lease());
    let _l: &OverlayLoadLease<29> = e.lease();
}

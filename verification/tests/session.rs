use lineage_server::client_packet::ClientPacket;
use lineage_server::messages::ClientMessage;
use lineage_server::server_packet::ServerPacket;
use lineage_server::session::{
    command_word, login_response, password_change_response, plan_packet, white_space, PacketPlan,
};
use lineage_server::user::UserAccount;

#[test]
fn version_is_answered_with_server_version() {
    let p = plan_packet(ClientPacket::Version(1, 2, 3, 4), 7);
    assert_eq!(
        p,
        PacketPlan::Respond {
            message: None,
            packets: vec![ServerPacket::ServerVersion {
                id: 2,
                version: 2,
                time: 3,
                new_accounts: 1,
                english: 1,
                country: 0
            }]
        }
    );
}

#[test]
fn chat_is_passed_on_with_the_client_id() {
    let p = plan_packet(ClientPacket::Chat("hello".to_string()), 9);
    assert_eq!(
        p,
        PacketPlan::Respond {
            message: Some(ClientMessage::RegularChat { id: 9, msg: "hello".to_string() }),
            packets: vec![]
        }
    );
    let y = plan_packet(ClientPacket::YellChat("HEY".to_string()), 9);
    assert_eq!(
        y,
        PacketPlan::Respond {
            message: Some(ClientMessage::YellChat {
                id: 9,
                msg: "HEY".to_string(),
                x: 32768,
                y: 32768
            }),
            packets: vec![]
        }
    );
    let w = plan_packet(ClientPacket::WhisperChat("ann".to_string(), "psst".to_string()), 3);
    assert_eq!(
        w,
        PacketPlan::Respond {
            message: Some(ClientMessage::WhisperChat(3, "ann".to_string(), "psst".to_string())),
            packets: vec![]
        }
    );
}

#[test]
fn delete_character_is_confirmed() {
    let p = plan_packet(ClientPacket::DeleteCharacter("bob".to_string()), 2);
    assert_eq!(
        p,
        PacketPlan::Respond {
            message: Some(ClientMessage::DeleteCharacter { id: 2, name: "bob".to_string() }),
            packets: vec![ServerPacket::DeleteCharacterOk]
        }
    );
}

#[test]
fn login_and_password_change_need_the_account() {
    let p = plan_packet(
        ClientPacket::Login("u".to_string(), "p".to_string(), 1, 2, 3, 4, 5, 6, 7),
        1,
    );
    assert_eq!(p, PacketPlan::Login { user: "u".to_string(), password: "p".to_string() });
    let c = plan_packet(
        ClientPacket::ChangePassword {
            account: "a".to_string(),
            oldpass: "o".to_string(),
            newpass: "n".to_string(),
        },
        1,
    );
    assert_eq!(
        c,
        PacketPlan::ChangePassword {
            account: "a".to_string(),
            oldpass: "o".to_string(),
            newpass: "n".to_string()
        }
    );
}

#[test]
fn news_done_lists_the_demo_character() {
    match plan_packet(ClientPacket::NewsDone, 1) {
        PacketPlan::Respond { message, packets } => {
            assert!(message.is_none());
            assert_eq!(packets.len(), 2);
            assert_eq!(packets[0], ServerPacket::NumberCharacters(1, 8));
            match &packets[1] {
                ServerPacket::LoginCharacterDetails { name, level, ac, .. } => {
                    assert_eq!(name, "whatever");
                    assert_eq!(*level, 51);
                    assert_eq!(*ac, -12);
                }
                _ => panic!("wrong packet"),
            }
        }
        _ => panic!("wrong plan"),
    }
}

#[test]
fn character_select_starts_the_game() {
    match plan_packet(ClientPacket::CharacterSelect { name: "x".to_string() }, 1) {
        PacketPlan::Respond { message, packets } => {
            assert!(message.is_none());
            assert_eq!(packets.len(), 6);
            assert_eq!(packets[0], ServerPacket::StartGame(0));
            assert_eq!(packets[2], ServerPacket::MapId(4, 0));
            assert_eq!(packets[4], ServerPacket::CharSpMrBonus { sp: 0, mr: 0 });
            assert_eq!(packets[5], ServerPacket::Weather(0));
            match &packets[1] {
                ServerPacket::CharacterDetails { food, weight, max_hp, .. } => {
                    assert_eq!(*food, 29);
                    assert_eq!(*weight, 15);
                    assert_eq!(*max_hp, 985);
                }
                _ => panic!("wrong packet"),
            }
        }
        _ => panic!("wrong plan"),
    }
}

#[test]
fn commands() {
    assert_eq!(
        plan_packet(ClientPacket::CommandChat("quit".to_string()), 1),
        PacketPlan::Respond { message: None, packets: vec![ServerPacket::Disconnect] }
    );
    assert_eq!(
        plan_packet(ClientPacket::CommandChat("  quit now".to_string()), 1),
        PacketPlan::Respond { message: None, packets: vec![ServerPacket::Disconnect] }
    );
    assert_eq!(
        plan_packet(ClientPacket::CommandChat("quitter".to_string()), 1),
        PacketPlan::Respond { message: None, packets: vec![] }
    );
    assert_eq!(
        plan_packet(ClientPacket::CommandChat("   ".to_string()), 1),
        PacketPlan::Respond { message: None, packets: vec![] }
    );
    match plan_packet(ClientPacket::CommandChat("chat".to_string()), 1) {
        PacketPlan::Respond { packets, .. } => {
            assert_eq!(packets.len(), 8);
            assert_eq!(packets[1], ServerPacket::NpcShout("NPC Shout test".to_string()));
        }
        _ => panic!("wrong plan"),
    }
    assert_eq!(
        plan_packet(ClientPacket::KeepAlive, 1),
        PacketPlan::Respond { message: None, packets: vec![] }
    );
}

#[test]
fn first_words() {
    assert_eq!(command_word("  hello world"), Some("hello".to_string()));
    assert_eq!(command_word("one"), Some("one".to_string()));
    assert_eq!(command_word("\tx\ny"), Some("x".to_string()));
    assert_eq!(command_word(" \u{3000} "), None);
    assert_eq!(command_word(""), None);
    assert!(white_space('\u{a0}'));
    assert!(!white_space('a'));
}

#[test]
fn logins() {
    let stored = UserAccount::new(
        "u".to_string(),
        "right".to_string(),
        "ip".to_string(),
        "lineage".to_string(),
    );
    let ok = login_response(4, "u".to_string(), "right".to_string(), Some(stored));
    assert_eq!(
        ok.packets,
        vec![ServerPacket::LoginResult { code: 0 }, ServerPacket::News("This is the news".to_string())]
    );
    assert_eq!(ok.message, Some(ClientMessage::LoggedIn(4, "u".to_string())));
    assert!(ok.new_account.is_none());

    let stored = UserAccount::new(
        "u".to_string(),
        "right".to_string(),
        "ip".to_string(),
        "lineage".to_string(),
    );
    let bad = login_response(4, "u".to_string(), "wrong".to_string(), Some(stored));
    assert_eq!(bad.packets, vec![ServerPacket::LoginResult { code: 8 }]);
    assert!(bad.message.is_none());

    let fresh = login_response(5, "new".to_string(), "pw".to_string(), None);
    assert_eq!(fresh.message, Some(ClientMessage::LoggedIn(5, "new".to_string())));
    let a = fresh.new_account.unwrap();
    assert_eq!(a.ip(), "127.0.0.1");
    assert!(a.check_login("lineage", "pw"));
}

#[test]
fn password_changes() {
    let stored = UserAccount::new(
        "u".to_string(),
        "old".to_string(),
        "ip".to_string(),
        "lineage".to_string(),
    );
    assert_eq!(
        password_change_response(Some(stored), "old"),
        vec![ServerPacket::LoginResult { code: 0x30 }]
    );
    let stored = UserAccount::new(
        "u".to_string(),
        "old".to_string(),
        "ip".to_string(),
        "lineage".to_string(),
    );
    assert_eq!(password_change_response(Some(stored), "nope"), vec![ServerPacket::LoginResult { code: 8 }]);
    assert_eq!(password_change_response(None, "old"), vec![ServerPacket::LoginResult { code: 8 }]);
}

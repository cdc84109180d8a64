use drippy::protocol::{
    notice_acknowledged, Command, STATUS_NO_ACTION, STATUS_REMOTE_CLOSE, STATUS_REMOTE_OPEN,
};

#[test]
fn status_codes_of_the_protocol() {
    assert_eq!(STATUS_NO_ACTION, 201);
    assert_eq!(STATUS_REMOTE_CLOSE, 204);
    assert_eq!(STATUS_REMOTE_OPEN, 205);
}

#[test]
fn status_reads_as_directive() {
    assert_eq!(Command::from_status(201), Some(Command::NoAction));
    assert_eq!(Command::from_status(204), Some(Command::RemoteClose));
    assert_eq!(Command::from_status(205), Some(Command::RemoteOpen));
}

#[test]
fn any_other_status_is_a_violation() {
    for status in [0u16, 100, 200, 202, 203, 206, 301, 404, 500, 65535] {
        assert_eq!(Command::from_status(status), None);
    }
}

#[test]
fn only_three_statuses_read_as_directives() {
    let mut known: u32 = 0;
    for status in 0..=u16::MAX {
        if Command::from_status(status).is_some() {
            known += 1;
        }
    }
    assert_eq!(known, 3);
}

#[test]
fn directive_names_its_status() {
    assert_eq!(Command::NoAction.status(), 201);
    assert_eq!(Command::RemoteClose.status(), 204);
    assert_eq!(Command::RemoteOpen.status(), 205);
}

#[test]
fn status_and_directive_round_trip() {
    for command in [Command::NoAction, Command::RemoteOpen, Command::RemoteClose] {
        assert_eq!(Command::from_status(command.status()), Some(command));
    }
}

#[test]
fn notice_is_acknowledged_by_its_status_alone() {
    assert!(notice_acknowledged(201));
    for status in [0u16, 200, 202, 204, 205, 404, 500] {
        assert!(!notice_acknowledged(status));
    }
}

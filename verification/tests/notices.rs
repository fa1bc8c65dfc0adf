use switchrs::command::{DeviceType, SwitchCommand};
use switchrs::notice::{CommandError, Notice, Parts};
use switchrs::resolver::ResolveError;

#[test]
fn status_line() {
    let notice = Notice::Status { device: "Lamp".to_string(), state: SwitchCommand::On };
    assert_eq!(notice.text(), "Lamp status: On");
    assert_eq!(
        notice.parts(),
        Parts {
            lead: "Lamp status: ".to_string(),
            word: Some(SwitchCommand::On),
            tail: String::new()
        }
    );
}

#[test]
fn action_line() {
    let notice = Notice::Done { device: "Blind 1".to_string(), command: SwitchCommand::Close };
    assert_eq!(notice.text(), "Blind 1 -> Close");
    assert_eq!(notice.parts().word, Some(SwitchCommand::Close));
}

#[test]
fn retry_and_failure_lines() {
    assert_eq!(
        Notice::Retrying { device: "Lamp".to_string() }.text(),
        "Retrying (Lamp)..."
    );
    assert_eq!(
        Notice::Failed { device: "Lamp".to_string() }.text(),
        "Failed to execute command on Lamp"
    );
    assert_eq!(Notice::Retrying { device: String::new() }.text(), "Retrying ()...");
}

#[test]
fn hint_lines() {
    assert_eq!(Notice::NotResponding.text(), "Timeout Error: device not responding");
    assert_eq!(Notice::CloseApp.text(), "Connection Error: Close Smart Life App");
    assert_eq!(
        Notice::Transport { message: "broken pipe".to_string() }.text(),
        "Error: broken pipe"
    );
    assert_eq!(Notice::InvalidResponse.text(), "Error: Invalid response");
    assert_eq!(Notice::Unsupported.text(), "Version 3.4 of the Tuya API is not supported");
    assert_eq!(Notice::CloseApp.parts().word, None);
}

#[test]
fn refusal_lines() {
    let unknown = CommandError::InvalidDeviceType("Invalid device type: Bulb".to_string());
    assert_eq!(unknown.message(), "Invalid device type: Bulb");
    assert_eq!(Notice::Refused(unknown).text(), "Invalid device type: Bulb");
    let wrong =
        CommandError::Incompatible { command: SwitchCommand::Open, family: DeviceType::Switch };
    assert_eq!(wrong.message(), "Invalid command `Open` for device type `Switch`");
    assert_eq!(
        wrong.parts(),
        Parts {
            lead: "Invalid command `".to_string(),
            word: Some(SwitchCommand::Open),
            tail: "` for device type `Switch`".to_string()
        }
    );
    let blind =
        CommandError::Incompatible { command: SwitchCommand::On, family: DeviceType::Blind2 };
    assert_eq!(
        Notice::Refused(blind).text(),
        "Invalid command `On` for device type `Blind`"
    );
}

#[test]
fn parts_join_to_the_line() {
    let parts = Parts {
        lead: "a ".to_string(),
        word: Some(SwitchCommand::Stop),
        tail: " b".to_string(),
    };
    assert_eq!(parts.text(), "a Stop b");
    let parts = Parts { lead: "a ".to_string(), word: None, tail: "b".to_string() };
    assert_eq!(parts.text(), "a b");
}

#[test]
fn resolve_error_lines() {
    assert_eq!(
        ResolveError::DeviceNotFound("lamp".to_string()).message(),
        "`lamp` device not found"
    );
    assert_eq!(
        ResolveError::MixedFamilies("all".to_string()).message(),
        "All devices must be of the same type in group `all`"
    );
}

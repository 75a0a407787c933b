use wsbgen::{
    generate_config, trans_mapped_folders, Configuration, ConfigurationIn, MappedFolder,
    MappedFolderItemIn, Switch,
};

fn folder(path: &str, read_only: Option<bool>) -> MappedFolderItemIn {
    MappedFolderItemIn { host_folder: path.to_owned(), read_only }
}

fn config(vgpu: Option<bool>, networking: Option<bool>) -> ConfigurationIn {
    ConfigurationIn { vgpu, networking, logon_command: None, mapped_folders: Vec::new() }
}

#[test]
fn switches_follow_optional_flags() {
    let cases = [(Some(true), Switch::Enable), (Some(false), Switch::Disable), (None, Switch::Default)];
    for (flag, expected) in cases {
        assert_eq!(Switch::from_option(flag), expected);
        let r = Configuration::from(config(flag, None));
        assert_eq!(r.vgpu, expected);
        assert_eq!(r.networking, Switch::Default);
        let r = Configuration::from(config(None, flag));
        assert_eq!(r.networking, expected);
        assert_eq!(r.vgpu, Switch::Default);
    }
}

#[test]
fn switch_text_values() {
    assert_eq!(Switch::Enable.text(), "Enable");
    assert_eq!(Switch::Disable.text(), "Disable");
    assert_eq!(Switch::Default.text(), "Default");
}

#[test]
fn folder_read_only_is_inverted() {
    assert_eq!(MappedFolder::from(folder("C:\\x", Some(false))).read_only, "true");
    assert_eq!(MappedFolder::from(folder("C:\\x", Some(true))).read_only, "false");
    let r = MappedFolder::from(folder("C:\\x", None));
    assert_eq!(r.read_only, "false");
    assert_eq!(r.host_folder, "C:\\x");
}

#[test]
fn folders_keep_their_order() {
    let r = trans_mapped_folders(vec![
        folder("a", Some(true)),
        folder("b", Some(false)),
        folder("c", None),
    ]);
    let got: Vec<(&str, &str)> =
        r.iter().map(|m| (m.host_folder.as_str(), m.read_only.as_str())).collect();
    assert_eq!(got, vec![("a", "false"), ("b", "true"), ("c", "false")]);
    assert!(trans_mapped_folders(Vec::new()).is_empty());
}

#[test]
fn logon_command_present_only_when_given() {
    let mut c = config(None, None);
    c.logon_command = Some("cmd /c run.bat".to_owned());
    let r = Configuration::from(c);
    assert_eq!(r.logon_command.unwrap().command, "cmd /c run.bat");
    let r = Configuration::from(config(None, None));
    assert!(r.logon_command.is_none());
}

#[test]
fn empty_folders_still_listed() {
    let r = Configuration::from(config(None, None));
    assert!(r.mapped_folders.unwrap().is_empty());
}

#[test]
fn full_scenario() {
    let c = ConfigurationIn {
        vgpu: None,
        networking: Some(false),
        logon_command: Some("cmd /c x".to_owned()),
        mapped_folders: vec![folder("C:\\a", Some(true))],
    };
    let r = Configuration::from(c);
    assert_eq!(r.vgpu, Switch::Default);
    assert_eq!(r.networking, Switch::Disable);
    assert_eq!(r.logon_command.unwrap().command, "cmd /c x");
    let folders = r.mapped_folders.unwrap();
    assert_eq!(folders.len(), 1);
    assert_eq!(folders[0].host_folder, "C:\\a");
    assert_eq!(folders[0].read_only, "false");
}

#[test]
fn generate_concatenation_order() {
    let r = generate_config(
        false,
        false,
        Some(vec!["a".to_owned(), "b".to_owned()]),
        Some(vec!["c".to_owned()]),
        "cmd /c init.bat".to_owned(),
    );
    let got: Vec<(&str, Option<bool>)> =
        r.mapped_folders.iter().map(|m| (m.host_folder.as_str(), m.read_only)).collect();
    assert_eq!(got, vec![("a", Some(true)), ("b", Some(true)), ("c", Some(false))]);
    assert_eq!(r.vgpu, Some(true));
    assert_eq!(r.networking, Some(true));
    assert_eq!(r.logon_command.as_deref(), Some("cmd /c init.bat"));
}

#[test]
fn generate_disable_flags_and_no_dirs() {
    let r = generate_config(true, true, None, None, "x".to_owned());
    assert_eq!(r.vgpu, Some(false));
    assert_eq!(r.networking, Some(false));
    assert!(r.mapped_folders.is_empty());
    let r = generate_config(false, true, None, Some(vec!["w".to_owned()]), "x".to_owned());
    assert_eq!(r.mapped_folders.len(), 1);
    assert_eq!(r.mapped_folders[0].read_only, Some(false));
    assert_eq!(r.vgpu, Some(true));
}

#[test]
fn generated_config_transforms_end_to_end() {
    let c = generate_config(true, false, Some(vec!["r".to_owned()]), Some(vec!["w".to_owned()]), "go".to_owned());
    let r = Configuration::from(c);
    assert_eq!(r.vgpu, Switch::Disable);
    assert_eq!(r.networking, Switch::Enable);
    let f = r.mapped_folders.unwrap();
    assert_eq!((f[0].host_folder.as_str(), f[0].read_only.as_str()), ("r", "false"));
    assert_eq!((f[1].host_folder.as_str(), f[1].read_only.as_str()), ("w", "true"));
}

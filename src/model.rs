//! Data model: the loose input configuration and the strict output configuration.
use vstd::prelude::*;

verus! {

/// A tri-state host setting: explicitly on, explicitly off, or left to the host.
#[derive(Clone, Copy, Debug, PartialEq, Eq, Structural)]
pub enum Switch {
    Enable,
    Disable,
    Default,
}

/// The switch that an optional boolean setting stands for.
pub open spec fn switch_spec(b: Option<bool>) -> Switch {
    match b {
        Some(true) => Switch::Enable,
        Some(false) => Switch::Disable,
        None => Switch::Default,
    }
}

/// The text that stands for a switch in the document.
pub open spec fn switch_text(s: Switch) -> Seq<char> {
    match s {
        Switch::Enable => "Enable"@,
        Switch::Disable => "Disable"@,
        Switch::Default => "Default"@,
    }
}

impl Switch {
    /// The switch's text in the document: `Enable`, `Disable` or `Default`.
    pub fn text(&self) -> (r: String)
        ensures
            r@ == switch_text(*self),
    {
        match self {
            Switch::Enable => "Enable".to_owned(),
            Switch::Disable => "Disable".to_owned(),
            Switch::Default => "Default".to_owned(),
        }
    }

    /// `Some(true)` enables, `Some(false)` disables, absence keeps the host default.
    pub fn from_option(b: Option<bool>) -> (r: Switch)
        ensures
            r == switch_spec(b),
    {
        match b {
            Some(true) => Switch::Enable,
            Some(false) => Switch::Disable,
            None => Switch::Default,
        }
    }
}

/// A host folder to expose inside the sandbox, as written in the editable configuration.
#[derive(Debug)]
pub struct MappedFolderItemIn {
    pub host_folder: String,
    /// Absent counts as writable.
    pub read_only: Option<bool>,
}

/// The loose, editable configuration: every host setting may be absent.
#[derive(Debug)]
pub struct ConfigurationIn {
    pub vgpu: Option<bool>,
    pub networking: Option<bool>,
    pub logon_command: Option<String>,
    pub mapped_folders: Vec<MappedFolderItemIn>,
}

/// A mapped folder of the final document; `read_only` is the text `"true"` or `"false"`.
#[derive(Debug)]
pub struct MappedFolder {
    pub host_folder: String,
    pub read_only: String,
}

/// The logon command of the final document: a mapping whose one key is `Command`.
#[derive(Debug)]
pub struct LogonCommand {
    pub command: String,
}

/// The strict configuration document handed to the sandbox host.
#[derive(Debug)]
pub struct Configuration {
    pub vgpu: Switch,
    pub networking: Switch,
    /// Omitted from the document when absent.
    pub mapped_folders: Option<Vec<MappedFolder>>,
    /// Omitted from the document when absent.
    pub logon_command: Option<LogonCommand>,
}

/// What a [`MappedFolderItemIn`] holds, as text and flag.
pub struct MappedFolderItemInView {
    pub host_folder: Seq<char>,
    pub read_only: Option<bool>,
}

/// What a [`ConfigurationIn`] holds.
pub struct ConfigurationInView {
    pub vgpu: Option<bool>,
    pub networking: Option<bool>,
    pub logon_command: Option<Seq<char>>,
    pub mapped_folders: Seq<MappedFolderItemInView>,
}

/// What a [`MappedFolder`] holds, as text.
pub struct MappedFolderView {
    pub host_folder: Seq<char>,
    pub read_only: Seq<char>,
}

/// What a [`Configuration`] holds.
pub struct ConfigurationView {
    pub vgpu: Switch,
    pub networking: Switch,
    pub mapped_folders: Option<Seq<MappedFolderView>>,
    /// The text of the `Command` entry.
    pub logon_command: Option<Seq<char>>,
}

impl View for MappedFolderItemIn {
    type V = MappedFolderItemInView;

    open spec fn view(&self) -> MappedFolderItemInView {
        MappedFolderItemInView { host_folder: self.host_folder@, read_only: self.read_only }
    }
}

impl View for MappedFolder {
    type V = MappedFolderView;

    open spec fn view(&self) -> MappedFolderView {
        MappedFolderView { host_folder: self.host_folder@, read_only: self.read_only@ }
    }
}

/// The views of a list of input folders.
pub open spec fn folders_in_view(v: Seq<MappedFolderItemIn>) -> Seq<MappedFolderItemInView> {
    v.map_values(|m: MappedFolderItemIn| m@)
}

/// The views of a list of output folders.
pub open spec fn folders_view(v: Seq<MappedFolder>) -> Seq<MappedFolderView> {
    v.map_values(|m: MappedFolder| m@)
}

impl View for ConfigurationIn {
    type V = ConfigurationInView;

    open spec fn view(&self) -> ConfigurationInView {
        ConfigurationInView {
            vgpu: self.vgpu,
            networking: self.networking,
            logon_command: match self.logon_command {
                Some(s) => Some(s@),
                None => None,
            },
            mapped_folders: folders_in_view(self.mapped_folders@),
        }
    }
}

impl View for Configuration {
    type V = ConfigurationView;

    open spec fn view(&self) -> ConfigurationView {
        ConfigurationView {
            vgpu: self.vgpu,
            networking: self.networking,
            mapped_folders: match self.mapped_folders {
                Some(v) => Some(folders_view(v@)),
                None => None,
            },
            logon_command: match self.logon_command {
                Some(l) => Some(l.command@),
                None => None,
            },
        }
    }
}

} // verus!

//! The total mapping from the loose configuration to the strict document.
use vstd::prelude::*;
use crate::model::{
    folders_in_view, folders_view, switch_spec, Configuration, ConfigurationIn,
    ConfigurationInView, ConfigurationView, LogonCommand, MappedFolder, MappedFolderItemIn, MappedFolderItemInView, MappedFolderView,
    Switch,
};

verus! {

/// The `ReadOnly` text written for a folder. Only an explicit `Some(false)`
/// yields `"true"`; hosts reading these documents rely on this polarity.
pub open spec fn read_only_text(r: Option<bool>) -> Seq<char> {
    if r == Some(false) {
        "true"@
    } else {
        "false"@
    }
}

/// The folder rule: the path passes through, the access mode becomes text.
pub open spec fn folder_spec(m: MappedFolderItemInView) -> MappedFolderView {
    MappedFolderView { host_folder: m.host_folder, read_only: read_only_text(m.read_only) }
}

/// The whole transformation, on models.
pub open spec fn transform_spec(c: ConfigurationInView) -> ConfigurationView {
    ConfigurationView {
        vgpu: switch_spec(c.vgpu),
        networking: switch_spec(c.networking),
        mapped_folders: Some(
            c.mapped_folders.map_values(|m: MappedFolderItemInView| folder_spec(m)),
        ),
        logon_command: c.logon_command,
    }
}

/// Each host switch follows its own optional flag alone: `Some(true)` gives
/// `Enable`, `Some(false)` gives `Disable`, absence gives `Default`.
pub proof fn switch_law(c: ConfigurationInView)
    ensures
        c.vgpu == Some(true) ==> transform_spec(c).vgpu == Switch::Enable,
        c.vgpu == Some(false) ==> transform_spec(c).vgpu == Switch::Disable,
        c.vgpu is None ==> transform_spec(c).vgpu == Switch::Default,
        c.networking == Some(true) ==> transform_spec(c).networking == Switch::Enable,
        c.networking == Some(false) ==> transform_spec(c).networking == Switch::Disable,
        c.networking is None ==> transform_spec(c).networking == Switch::Default,
{
}

/// A folder's `ReadOnly` text is `"true"` exactly when its input flag is
/// `Some(false)`, and `"false"` for `Some(true)` and for absence; the path
/// passes through unchanged.
pub proof fn folder_read_only_law(m: MappedFolderItemInView)
    ensures
        folder_spec(m).read_only == "true"@ <==> m.read_only == Some(false),
        folder_spec(m).read_only == "false"@ <==> m.read_only != Some(false),
        folder_spec(m).host_folder == m.host_folder,
{
    reveal_strlit("true");
    reveal_strlit("false");
    assert("true"@[0] != "false"@[0]);
}

/// The document holds a logon command `cmd` exactly when the input holds
/// `cmd`, and none when the input has none.
pub proof fn logon_command_law(c: ConfigurationInView, cmd: Seq<char>)
    ensures
        transform_spec(c).logon_command == Some(cmd) <==> c.logon_command == Some(cmd),
        transform_spec(c).logon_command is None <==> c.logon_command is None,
{
}

/// The document always lists the folders, one for each input folder, in order.
pub proof fn folders_order_law(c: ConfigurationInView, i: int)
    requires
        0 <= i < c.mapped_folders.len(),
    ensures
        transform_spec(c).mapped_folders is Some,
        transform_spec(c).mapped_folders.unwrap().len() == c.mapped_folders.len(),
        transform_spec(c).mapped_folders.unwrap()[i] == folder_spec(c.mapped_folders[i]),
{
}

impl MappedFolder {
    /// Applies the folder rule to one input folder.
    pub fn from(m: MappedFolderItemIn) -> (r: MappedFolder)
        ensures
            r@ == folder_spec(m@),
    {
        let read_only = match m.read_only {
            Some(false) => "true".to_owned(),
            _ => "false".to_owned(),
        };
        MappedFolder { host_folder: m.host_folder, read_only }
    }
}

/// Applies the folder rule to each folder, keeping their order.
pub fn trans_mapped_folders(x: Vec<MappedFolderItemIn>) -> (r: Vec<MappedFolder>)
    ensures
        folders_view(r@) == folders_in_view(x@).map_values(|m: MappedFolderItemInView| folder_spec(m)),
{
    let ghost xs = x@;
    let mut r: Vec<MappedFolder> = Vec::new();
    for m in it: x
        invariant
            it.seq() == xs,
            r@.len() == it.index(),
            forall|i: int| 0 <= i < r@.len() ==> #[trigger] r@[i]@ == folder_spec(xs[i]@),
    {
        r.push(MappedFolder::from(m));
    }
    assert(folders_view(r@) =~= folders_in_view(xs).map_values(
        |m: MappedFolderItemInView| folder_spec(m),
    ));
    r
}

impl Configuration {
    /// Maps the loose configuration to the strict document. Total: every
    /// input, however sparse, gives a document.
    pub fn from(c: ConfigurationIn) -> (r: Configuration)
        ensures
            r@ == transform_spec(c@),
    {
        let logon_command = match c.logon_command {
            Some(command) => Some(LogonCommand { command }),
            None => None,
        };
        Configuration {
            vgpu: Switch::from_option(c.vgpu),
            networking: Switch::from_option(c.networking),
            mapped_folders: Some(trans_mapped_folders(c.mapped_folders)),
            logon_command,
        }
    }
}

} // verus!

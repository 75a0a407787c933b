//! Assembling the loose configuration from the `generate` command's flags.
use vstd::prelude::*;
use crate::model::{
    folders_in_view, ConfigurationIn, ConfigurationInView, MappedFolderItemIn,
    MappedFolderItemInView,
};

verus! {

/// The folders made of a list of shared directories, each with the given access flag.
pub open spec fn shared_dirs_spec(dirs: Option<Vec<String>>, read_only: bool) -> Seq<
    MappedFolderItemInView,
> {
    match dirs {
        Some(v) => v@.map_values(
            |s: String| MappedFolderItemInView { host_folder: s@, read_only: Some(read_only) },
        ),
        None => Seq::empty(),
    }
}

/// The configuration that the `generate` command builds from its flags.
pub open spec fn generate_spec(
    disable_vgpu: bool,
    disable_network: bool,
    readonly_dirs: Option<Vec<String>>,
    readwrite_dirs: Option<Vec<String>>,
    logon_command: Seq<char>,
) -> ConfigurationInView {
    ConfigurationInView {
        vgpu: Some(!disable_vgpu),
        networking: Some(!disable_network),
        logon_command: Some(logon_command),
        mapped_folders: shared_dirs_spec(readonly_dirs, true) + shared_dirs_spec(
            readwrite_dirs,
            false,
        ),
    }
}

/// In the configuration of the `generate` command the read-only directories
/// come first, in their given order and marked read-only, and the writable
/// directories follow, in their given order and marked writable.
pub proof fn shared_dirs_order_law(
    disable_vgpu: bool,
    disable_network: bool,
    readonly_dirs: Vec<String>,
    readwrite_dirs: Vec<String>,
    logon_command: Seq<char>,
)
    ensures
        ({
            let folders = generate_spec(
                disable_vgpu,
                disable_network,
                Some(readonly_dirs),
                Some(readwrite_dirs),
                logon_command,
            ).mapped_folders;
            &&& folders.len() == readonly_dirs@.len() + readwrite_dirs@.len()
            &&& forall|i: int|
                0 <= i < readonly_dirs@.len() ==> #[trigger] folders[i] == MappedFolderItemInView {
                    host_folder: readonly_dirs@[i]@,
                    read_only: Some(true),
                }
            &&& forall|j: int|
                0 <= j < readwrite_dirs@.len() ==> #[trigger] folders[readonly_dirs@.len() + j]
                    == MappedFolderItemInView {
                    host_folder: readwrite_dirs@[j]@,
                    read_only: Some(false),
                }
        }),
{
}

/// Appends one folder per directory, all with the same access flag, in order.
fn push_shared_dirs(out: &mut Vec<MappedFolderItemIn>, dirs: Option<Vec<String>>, read_only: bool)
    ensures
        folders_in_view(final(out)@) == folders_in_view(old(out)@) + shared_dirs_spec(
            dirs,
            read_only,
        ),
{
    let ghost start = folders_in_view(out@);
    match dirs {
        Some(v) => {
            let ghost vs = v@;
            for host_folder in it: v
                invariant
                    it.seq() == vs,
                    folders_in_view(out@) =~= start + vs.take(it.index() as int).map_values(
                        |s: String| MappedFolderItemInView { host_folder: s@, read_only: Some(read_only) },
                    ),
            {
                let ghost before = folders_in_view(out@);
                out.push(MappedFolderItemIn { host_folder, read_only: Some(read_only) });
                assert(folders_in_view(out@) =~= before.push(
                    MappedFolderItemInView { host_folder: vs[it.index() as int]@, read_only: Some(read_only) },
                ));
                assert(vs.take(it.index() + 1) =~= vs.take(it.index() as int).push(vs[it.index() as int]));
            }
            assert(vs.take(vs.len() as int) =~= vs);
        },
        None => {
            assert(folders_in_view(out@) =~= start + Seq::<MappedFolderItemInView>::empty());
        },
    }
}

/// Builds the configuration of the `generate` command. The virtual GPU and
/// networking flags disable when set and enable otherwise. The directories
/// are expected already canonicalized: the read-only ones come first, then
/// the writable ones, each list in its given order.
pub fn generate_config(
    disable_vgpu: bool,
    disable_network: bool,
    readonly_dirs: Option<Vec<String>>,
    readwrite_dirs: Option<Vec<String>>,
    logon_command: String,
) -> (r: ConfigurationIn)
    ensures
        r@ == generate_spec(
            disable_vgpu,
            disable_network,
            readonly_dirs,
            readwrite_dirs,
            logon_command@,
        ),
{
    let ghost ro = readonly_dirs;
    let ghost rw = readwrite_dirs;
    let mut mapped_folders: Vec<MappedFolderItemIn> = Vec::new();
    assert(folders_in_view(mapped_folders@) =~= Seq::empty());
    push_shared_dirs(&mut mapped_folders, readonly_dirs, true);
    push_shared_dirs(&mut mapped_folders, readwrite_dirs, false);
    assert(folders_in_view(mapped_folders@) =~= shared_dirs_spec(ro, true) + shared_dirs_spec(rw, false));
    ConfigurationIn {
        vgpu: Some(!disable_vgpu),
        networking: Some(!disable_network),
        logon_command: Some(logon_command),
        mapped_folders,
    }
}

} // verus!

//! Where things lie: the marker of the recovery partition, the directories
//! named after its filesystem UUID, and what is mirrored and copied where.

use vstd::prelude::*;
use vstd::string::StrSliceExecFns;
use vstd::string::StringExecFns;

verus! {

/// The file whose presence marks a partition as the recovery partition.
pub const RECOVERY_MARKER: &'static str = "recovery.conf";

/// Where the recovery partition is mounted while the system runs.
pub const RECOVERY_MOUNT: &'static str = "/recovery";

/// The directory of the EFI partition that holds the boot entries.
pub const EFI_PATH: &'static str = "/boot/efi/EFI/";

/// The filesystem of an installer image.
pub const ISO_FILESYSTEM: &'static str = "iso9660";

/// The file name under which a fetched image is kept.
pub const ISO_NAME: &'static str = "new.iso";

/// How a tree is mirrored with `rsync`: symbolic links are copied as links,
/// permissions and modification times are kept, files are compared by content
/// and written in place, and what the source does not have is removed from
/// the destination.
pub const MIRROR_FLAGS: [&'static str; 3] = ["-Kavc", "--inplace", "--delete"];

/// The format of a filesystem.
#[derive(Clone, Copy, Debug, PartialEq, Eq, Structural)]
pub enum FileSystem {
    Btrfs,
    Exfat,
    Ext2,
    Ext3,
    Ext4,
    F2fs,
    Fat16,
    Fat32,
    Ntfs,
    Swap,
    Xfs,
    Luks,
    Lvm,
}

/// Whether a partition of this format may be the recovery partition.
pub fn accepts_filesystem(filesystem: FileSystem) -> (accepted: bool)
    ensures
        accepted == (filesystem == FileSystem::Fat16 || filesystem == FileSystem::Fat32),
{
    match filesystem {
        FileSystem::Fat16 | FileSystem::Fat32 => true,
        _ => false,
    }
}

/// `name` below the directory `base`: the two with one separator between
/// them, which `base` may already end in. Below the empty path, `name` itself.
pub open spec fn joined(base: Seq<char>, name: Seq<char>) -> Seq<char> {
    if base.len() == 0 || base.last() == '/' {
        base + name
    } else {
        base + "/"@ + name
    }
}

/// The path of `name` below the directory `base`.
pub fn join(base: &str, name: &str) -> (path: String)
    ensures
        path@ == joined(base@, name@),
{
    let length = base.unicode_len();
    let mut path = base.to_owned();
    if length > 0 && base.get_char(length - 1) != '/' {
        path.append("/");
    }
    path.append(name);
    path
}

/// The name of the directory of boot assets on the recovery partition.
pub open spec fn casper_of(uuid: Seq<char>) -> Seq<char> {
    "casper-"@ + uuid
}

/// The name of the recovery entry on the EFI partition.
pub open spec fn recovery_of(uuid: Seq<char>) -> Seq<char> {
    "Recovery-"@ + uuid
}

/// The name of the directory of boot assets on the recovery partition whose
/// filesystem has the given UUID.
pub fn casper_name(uuid: &str) -> (name: String)
    ensures
        name@ == casper_of(uuid@),
{
    "casper-".to_owned().concat(uuid)
}

/// The name of the recovery entry on the EFI partition, for the recovery
/// partition whose filesystem has the given UUID.
pub fn recovery_name(uuid: &str) -> (name: String)
    ensures
        name@ == recovery_of(uuid@),
{
    "Recovery-".to_owned().concat(uuid)
}

/// One thing to bring from `source` to `destination`.
#[derive(Debug, PartialEq, Eq)]
pub struct Transfer {
    pub source: String,
    pub destination: String,
}

/// A transfer, its paths by their characters.
pub ghost struct TransferModel {
    pub source: Seq<char>,
    pub destination: Seq<char>,
}

impl View for Transfer {
    type V = TransferModel;

    open spec fn view(&self) -> TransferModel {
        TransferModel { source: self.source@, destination: self.destination@ }
    }
}

/// What an upgrade writes: the trees to mirror, in this order, and then the
/// boot payloads to copy one by one.
#[derive(Debug, PartialEq, Eq)]
pub struct SyncSpec {
    pub mirrors: Vec<Transfer>,
    pub payloads: Vec<Transfer>,
}

/// A sync specification, its paths by their characters.
pub ghost struct SyncModel {
    pub mirrors: Seq<TransferModel>,
    pub payloads: Seq<TransferModel>,
}

impl View for SyncSpec {
    type V = SyncModel;

    open spec fn view(&self) -> SyncModel {
        SyncModel {
            mirrors: Seq::new(self.mirrors@.len(), |i: int| self.mirrors@[i]@),
            payloads: Seq::new(self.payloads@.len(), |i: int| self.payloads@[i]@),
        }
    }
}

/// What is written when the image is mounted at `mount` and the recovery
/// partition, whose filesystem has the UUID `uuid`, at `recovery`.
///
/// The trees `.disk`, `dists` and `pool` of the image go to the root of the
/// recovery partition, and the contents of `casper` to the directory of boot
/// assets named after the UUID. The initial ramdisk and the kernel are then
/// copied from that directory to the recovery entry on the EFI partition.
pub open spec fn sync_of(mount: Seq<char>, recovery: Seq<char>, uuid: Seq<char>) -> SyncModel {
    let assets = joined(recovery, casper_of(uuid));
    let entry = joined(EFI_PATH@, recovery_of(uuid));
    SyncModel {
        mirrors: seq![
            TransferModel { source: joined(mount, ".disk"@), destination: recovery },
            TransferModel { source: joined(mount, "dists"@), destination: recovery },
            TransferModel { source: joined(mount, "pool"@), destination: recovery },
            TransferModel {
                source: joined(mount, "casper/"@),
                destination: recovery + "/"@ + casper_of(uuid),
            },
        ],
        payloads: seq![
            TransferModel {
                source: joined(recovery, casper_of(uuid) + "/initrd.gz"@),
                destination: joined(entry, "initrd.gz"@),
            },
            TransferModel {
                source: joined(recovery, casper_of(uuid) + "/vmlinuz.efi"@),
                destination: joined(entry, "vmlinuz.efi"@),
            },
        ],
    }
}

/// Lays out what an upgrade writes.
pub fn sync_spec(mount: &str, recovery: &str, uuid: &str) -> (spec: SyncSpec)
    ensures
        spec@ == sync_of(mount@, recovery@, uuid@),
{
    let casper = casper_name(uuid);
    let entry = join(EFI_PATH, recovery_name(uuid).as_str());
    let mut mirrors: Vec<Transfer> = Vec::new();
    mirrors.push(Transfer { source: join(mount, ".disk"), destination: recovery.to_owned() });
    mirrors.push(Transfer { source: join(mount, "dists"), destination: recovery.to_owned() });
    mirrors.push(Transfer { source: join(mount, "pool"), destination: recovery.to_owned() });
    mirrors.push(
        Transfer {
            source: join(mount, "casper/"),
            destination: recovery.to_owned().concat("/").concat(casper.as_str()),
        },
    );
    let mut payloads: Vec<Transfer> = Vec::new();
    payloads.push(
        Transfer {
            source: join(recovery, casper.clone().concat("/initrd.gz").as_str()),
            destination: join(entry.as_str(), "initrd.gz"),
        },
    );
    payloads.push(
        Transfer {
            source: join(recovery, casper.clone().concat("/vmlinuz.efi").as_str()),
            destination: join(entry.as_str(), "vmlinuz.efi"),
        },
    );
    let spec = SyncSpec { mirrors, payloads };
    assert(spec@.mirrors =~= sync_of(mount@, recovery@, uuid@).mirrors);
    assert(spec@.payloads =~= sync_of(mount@, recovery@, uuid@).payloads);
    spec
}

/// The directories named after a UUID tell the UUIDs apart: recovery
/// partitions with different filesystems never share a directory of boot
/// assets or a recovery entry.
pub proof fn names_tell_uuids_apart(a: Seq<char>, b: Seq<char>)
    ensures
        casper_of(a) == casper_of(b) <==> a == b,
        recovery_of(a) == recovery_of(b) <==> a == b,
{
    let casper = "casper-"@;
    let recovery = "Recovery-"@;
    if casper_of(a) == casper_of(b) {
        assert(a =~= casper_of(a).subrange(casper.len() as int, casper_of(a).len() as int));
        assert(b =~= casper_of(b).subrange(casper.len() as int, casper_of(b).len() as int));
    }
    if recovery_of(a) == recovery_of(b) {
        assert(a =~= recovery_of(a).subrange(recovery.len() as int, recovery_of(a).len() as int));
        assert(b =~= recovery_of(b).subrange(recovery.len() as int, recovery_of(b).len() as int));
    }
}

} // verus!

//! What building a distribution consists of.

use crate::text::texts_of;
use vstd::prelude::*;
use vstd::string::*;

verus! {

/// Size in bytes of the disk image of a distribution.
pub const IMAGE_SIZE: u64 = 30 * 1024 * 1024;

/// Size in bytes of the EFI system partition of the image.
pub const EFI_PARTITION_SIZE: u64 = 20 * 1024 * 1024;

/// What a package is compiled for.
#[derive(Debug)]
pub enum Target {
    /// A target that the compiler knows by its triple.
    Triple(String),
    /// A target described by a specification file.
    Custom { triple: String, spec: String },
}

/// One package to compile.
#[derive(Debug)]
pub struct CargoBuild {
    /// Name of the file that the build leaves behind.
    pub artifact_name: String,
    /// Directory of the package.
    pub manifest_dir: String,
    /// Directory of the workspace that the package belongs to.
    pub workspace: String,
    /// What to compile for.
    pub target: Target,
    /// Whether to compile with optimisations.
    pub release: bool,
    /// The components of the standard library to compile along.
    pub std_components: Vec<String>,
    /// The features of the standard library to switch on.
    pub std_features: Vec<String>,
}

/// A file of the EFI system partition.
#[derive(Debug)]
pub struct EfiFile {
    /// Path of the file inside the partition.
    pub path: String,
    /// Index of the build whose artifact the file holds.
    pub build: usize,
}

/// What to do to build a distribution: the packages to compile, in order,
/// and the disk image to put their artifacts into.
#[derive(Debug)]
pub struct DistPlan {
    pub builds: Vec<CargoBuild>,
    /// Path of the disk image.
    pub image: String,
    /// Size in bytes of the disk image.
    pub image_size: u64,
    /// Size in bytes of the image's EFI system partition.
    pub efi_partition_size: u64,
    /// The files of the EFI system partition.
    pub efi_files: Vec<EfiFile>,
}

/// A list that holds `text` alone.
fn one(text: &str) -> (r: Vec<String>)
    ensures
        texts_of(r@) == seq![text@],
{
    let mut list: Vec<String> = Vec::new();
    list.push(text.to_owned());
    assert(texts_of(list@) =~= seq![text@]);
    list
}

/// Plans a distribution: the loader is compiled for UEFI and the kernel for
/// its own target, both optimised if and only if `release` is set, and both
/// go into the EFI system partition of the image.
pub fn make_dist(release: bool) -> (r: DistPlan)
    ensures
        r.builds@.len() == 2,
        r.builds@[0].artifact_name@ == "efiloader.efi"@,
        r.builds@[0].manifest_dir@ == "kernel/efiloader/"@,
        r.builds@[0].workspace@ == "kernel/"@,
        r.builds@[0].target matches Target::Triple(triple) && triple@ == "x86_64-unknown-uefi"@,
        r.builds@[0].release == release,
        texts_of(r.builds@[0].std_components@) == seq!["core"@],
        texts_of(r.builds@[0].std_features@) == seq!["compiler-builtins-mem"@],
        r.builds@[1].artifact_name@ == "kernel_x86_64"@,
        r.builds@[1].manifest_dir@ == "kernel/kernel_x86_64/"@,
        r.builds@[1].workspace@ == "kernel/"@,
        r.builds@[1].target matches Target::Custom { triple, spec } && triple@ == "x86_64-kernel"@
            && spec@ == "kernel/kernel_x86_64/x86_64-kernel.json"@,
        r.builds@[1].release == release,
        texts_of(r.builds@[1].std_components@) == seq!["core"@, "alloc"@],
        texts_of(r.builds@[1].std_features@) == Seq::<Seq<char>>::empty(),
        r.image@ == "pebble.img"@,
        r.image_size == IMAGE_SIZE,
        r.efi_partition_size == EFI_PARTITION_SIZE,
        r.efi_files@.len() == 2,
        r.efi_files@[0].path@ == "efi/boot/bootx64.efi"@,
        r.efi_files@[0].build == 0,
        r.efi_files@[1].path@ == "kernel.elf"@,
        r.efi_files@[1].build == 1,
{
    let loader = CargoBuild {
        artifact_name: "efiloader.efi".to_owned(),
        manifest_dir: "kernel/efiloader/".to_owned(),
        workspace: "kernel/".to_owned(),
        target: Target::Triple("x86_64-unknown-uefi".to_owned()),
        release,
        std_components: one("core"),
        std_features: one("compiler-builtins-mem"),
    };
    let mut kernel_components = one("core");
    let ghost first = texts_of(kernel_components@);
    kernel_components.push("alloc".to_owned());
    assert(texts_of(kernel_components@) =~= first.push("alloc"@));
    assert(seq!["core"@].push("alloc"@) =~= seq!["core"@, "alloc"@]);
    let kernel_features: Vec<String> = Vec::new();
    assert(texts_of(kernel_features@) =~= Seq::<Seq<char>>::empty());
    let kernel = CargoBuild {
        artifact_name: "kernel_x86_64".to_owned(),
        manifest_dir: "kernel/kernel_x86_64/".to_owned(),
        workspace: "kernel/".to_owned(),
        target: Target::Custom {
            triple: "x86_64-kernel".to_owned(),
            spec: "kernel/kernel_x86_64/x86_64-kernel.json".to_owned(),
        },
        release,
        std_components: kernel_components,
        std_features: kernel_features,
    };
    let mut builds: Vec<CargoBuild> = Vec::new();
    builds.push(loader);
    builds.push(kernel);
    let mut efi_files: Vec<EfiFile> = Vec::new();
    efi_files.push(EfiFile { path: "efi/boot/bootx64.efi".to_owned(), build: 0 });
    efi_files.push(EfiFile { path: "kernel.elf".to_owned(), build: 1 });
    DistPlan {
        builds,
        image: "pebble.img".to_owned(),
        image_size: IMAGE_SIZE,
        efi_partition_size: EFI_PARTITION_SIZE,
        efi_files,
    }
}

} // verus!

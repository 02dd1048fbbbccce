use pci_interrupts::dist::{make_dist, Target, EFI_PARTITION_SIZE, IMAGE_SIZE};

#[test]
fn distribution_builds_loader_then_kernel() {
    let plan = make_dist(false);
    assert_eq!(plan.builds.len(), 2);
    let loader = &plan.builds[0];
    assert_eq!(loader.artifact_name, "efiloader.efi");
    assert_eq!(loader.manifest_dir, "kernel/efiloader/");
    assert_eq!(loader.workspace, "kernel/");
    assert!(matches!(&loader.target, Target::Triple(triple) if triple == "x86_64-unknown-uefi"));
    assert!(!loader.release);
    assert_eq!(loader.std_components, vec!["core".to_string()]);
    assert_eq!(loader.std_features, vec!["compiler-builtins-mem".to_string()]);
    let kernel = &plan.builds[1];
    assert_eq!(kernel.artifact_name, "kernel_x86_64");
    assert_eq!(kernel.manifest_dir, "kernel/kernel_x86_64/");
    assert_eq!(kernel.workspace, "kernel/");
    assert!(matches!(
        &kernel.target,
        Target::Custom { triple, spec }
            if triple == "x86_64-kernel" && spec == "kernel/kernel_x86_64/x86_64-kernel.json"
    ));
    assert!(!kernel.release);
    assert_eq!(kernel.std_components, vec!["core".to_string(), "alloc".to_string()]);
    assert!(kernel.std_features.is_empty());
}

#[test]
fn distribution_image_holds_both_artifacts() {
    let plan = make_dist(false);
    assert_eq!(plan.image, "pebble.img");
    assert_eq!(plan.image_size, 31_457_280);
    assert_eq!(plan.efi_partition_size, 20_971_520);
    assert_eq!(IMAGE_SIZE, 31_457_280);
    assert_eq!(EFI_PARTITION_SIZE, 20_971_520);
    assert_eq!(plan.efi_files.len(), 2);
    assert_eq!(plan.efi_files[0].path, "efi/boot/bootx64.efi");
    assert_eq!(plan.efi_files[0].build, 0);
    assert_eq!(plan.efi_files[1].path, "kernel.elf");
    assert_eq!(plan.efi_files[1].build, 1);
}

#[test]
fn release_is_handed_to_both_builds() {
    let plan = make_dist(true);
    assert!(plan.builds[0].release);
    assert!(plan.builds[1].release);
}

[package]
name = "pci_interrupts"
version = "0.1.0"
edition = "2021"
publish = false

[dependencies]
bit_field = "*"
fdt = "*"
pci_types = "*"
spinning_top = "*"
tracing = { version = "*", default-features = false }
log = "*"
xflags = "*"
xshell = "*"
eyre = "*"
color-eyre = { version = "*", default-features = false }
thingbuf = "*"

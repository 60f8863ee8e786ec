//! Podlet: generate Podman Quadlet files from Podman commands and options.
//!
//! The library holds the text formats of Quadlet files and of the option strings that Podman
//! accepts: their parsers, their formatters, and the serializers that write Quadlet sections and
//! command-line arguments.

pub mod text;
pub mod num;
pub mod idmap;
pub mod device;
pub mod escape;
pub mod value;
pub mod quadlet_ser;
pub mod args_ser;
pub mod mount_opts;
pub mod rootfs;
pub mod volume;
pub mod mount_options;
pub mod mount;
pub mod mount_laws;
pub mod volume_laws;
pub mod user_namespace;
pub mod container;
pub mod security_opt;
pub mod image;
pub mod auto_update;
pub mod kube;
pub mod volume_opt;
pub mod secret;
pub mod k8s;
pub mod pod;
pub mod compose_pod;
pub mod paths;
pub mod sections;
pub mod quadlet_image;
pub mod cli_image;
pub mod artifact;
pub mod cli_artifact;
pub mod global_args;
pub mod compose;
pub mod compose_service;
pub mod unit_file;
pub mod skip;
pub mod pod_service;
pub mod quadlet_lines;
pub mod quadlet_network;
pub mod quadlet_volume;
pub mod podman_args;
pub mod compose_volume;
pub mod quadlet_options;
pub mod quadlet_container;
pub mod downgrade;
pub mod quadlet_kube;
pub mod quadlet_pod;
pub mod container_downgrade;
pub mod quadlet_build;
pub mod container_text;
pub mod downgrade_laws;
pub mod cli_container;
pub mod service_section;
pub mod compose_file;

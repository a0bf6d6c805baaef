//! Metadata about upstream software projects: typed fields, certainty
//! levels, a collection holding one entry per field, the rules that merge
//! candidate guesses into it, and normalisation of repository locations.

pub mod certainty;
pub mod datum;
pub mod error;
pub mod field;
pub mod merge;
pub mod metadata;
pub mod pipeline;
pub mod text;
pub mod urlparse;
pub mod vcs;

pub use certainty::Certainty;
pub use datum::{Person, UpstreamDatum, Value};
pub use error::UpstreamError;
pub use field::{Field, Shape};
pub use merge::{filter_by_certainty, update_from_guesses};
pub use metadata::UpstreamMetadata;
pub use pipeline::{
    apply_check, check_upstream_metadata, extend_upstream_metadata, fix_summary,
    fix_upstream_metadata, guess_upstream_metadata, guess_upstream_metadata_items,
    sanitize_repository, CheckOutcome,
};
pub use vcs::{
    canonical_git_path, canonical_git_repo_url, convert_cvs_list_to_str, drop_vcs_in_scheme,
    find_public_repo_url, find_secure_repo_url, fixup_broken_git_details,
    fixup_rcp_style_git_repo_url, https_form, is_https_host, is_known_gitlab_host,
    is_secure_scheme, public_location, rcp_location_to_ssh, scheme_text, strip_vcs_scheme,
};

//! Source acquisition: describe where a source tree comes from (a
//! version-control checkout, a clone, or a remote archive) and plan the
//! external operations that materialize it under a destination directory.

mod error;
mod filename;
mod resource;

pub use error::Error;
pub use filename::after_last_slash;
pub use filename::filename_of_url;
pub use filename::get_filename_from_url;
pub use filename::last_path_segment;
pub use filename::lemma_filename_is_last_segment;
pub use filename::lemma_filename_never_empty;
pub use filename::path_segments_of;
pub use filename::split_on_slash;
pub use filename::url_path_of;
pub use resource::download_plan;
pub use resource::git_plan;
pub use resource::lemma_git_branch_args;
pub use resource::lemma_svn_ignores_branch;
pub use resource::steps_view;
pub use resource::svn_plan;
pub use resource::tar_plan;
pub use resource::Resource;
pub use resource::ResourceModel;
pub use resource::Step;
pub use resource::StepModel;

use vstd::prelude::*;

use crate::args::{DeleteTemplateArgs, NewTemplateArgs, RunDeployArgs};

verus! {

/// A parsed command line.
#[derive(Clone, Debug)]
pub struct Cli {
    pub command: Commands,
}

/// The top-level commands.
#[derive(Clone, Debug)]
pub enum Commands {
    /// Run a local setup.
    Run(RunDeployArgs),
    /// Deploy to the cloud.
    Deploy(RunDeployArgs),
    /// Manage templates.
    Templates(TemplateCommands),
    /// Check for a newer release.
    VersionCheck,
}

/// The template management commands.
#[derive(Clone, Debug)]
pub enum TemplateCommands {
    /// Create a template.
    New(NewTemplateArgs),
    /// List the templates.
    List,
    /// Delete a template.
    Delete(DeleteTemplateArgs),
}

} // verus!

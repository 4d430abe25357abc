use vstd::prelude::*;

verus! {

/// One service to launch: an executable, its arguments, and whether its exit
/// brings the whole process group down.
#[derive(Clone, Debug)]
pub struct ServiceConfig {
    pub title: String,
    pub executable: String,
    pub args: Vec<String>,
    pub essential: bool,
}

/// A file to render before the services start.
#[derive(Clone, Debug)]
pub struct Template {
    pub src: String,
    pub dest: String,
}

/// Everything the configuration file describes.
#[derive(Clone, Debug)]
pub struct Config {
    pub services: Vec<ServiceConfig>,
    pub templates: Vec<Template>,
}

} // verus!

//! One VM and what is known of it: the subject of every command.

use crate::config::{Config, ConfigView};
use crate::host::{Host, HostView, Paths, PathsView};
use vstd::prelude::*;

verus! {

pub struct App<'a> {
    pub host: &'a Host,
    pub paths: Paths,
    pub config: Config,
}

pub struct AppView {
    pub host: HostView,
    pub paths: PathsView,
    pub config: ConfigView,
}

impl<'a> View for App<'a> {
    type V = AppView;

    open spec fn view(&self) -> AppView {
        AppView { host: self.host@, paths: self.paths@, config: self.config@ }
    }
}

} // verus!

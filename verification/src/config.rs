//! The configuration record, and where and in what layout its file holds it.

use vstd::prelude::*;

verus! {

/// The settings an application reads once at startup.
#[derive(Debug)]
pub struct BotConfig {
    /// Credential the application presents to the service it talks to.
    /// Nothing is demanded of its contents; a blank file holds an empty one.
    pub token: String,
}

/// The value of a [`BotConfig`] in specifications.
pub struct BotConfigView {
    pub token: Seq<char>,
}

impl View for BotConfig {
    type V = BotConfigView;

    open spec fn view(&self) -> BotConfigView {
        BotConfigView { token: self.token@ }
    }
}

impl BotConfigView {
    /// The record a blank file holds: every field at its zero value.
    pub open spec fn blank() -> BotConfigView {
        BotConfigView { token: Seq::empty() }
    }
}

impl Default for BotConfig {
    /// The record with every field at its zero value.
    fn default() -> (config: BotConfig)
        ensures
            config@ == BotConfigView::blank(),
    {
        BotConfig { token: String::new() }
    }
}

/// Where the configuration file is looked for when the caller names no
/// other place: in the working directory, under this name.
pub const CONFIG_PATH: &'static str = "config.ron";

/// How the text of a configuration file is laid out when it is written.
#[derive(Clone, Copy, Debug, PartialEq, Eq, Structural)]
pub struct PrettyLayout {
    /// Nesting deeper than this is put on one line.
    pub depth_limit: usize,
    /// Whether each member of a tuple gets a line of its own.
    pub separate_tuple_members: bool,
    /// Whether each item of an array is followed by its index in a comment.
    pub enumerate_arrays: bool,
}

impl PrettyLayout {
    /// The layout of a configuration file: nesting is broken into lines
    /// two levels deep, tuple members stand one to a line, and array items
    /// carry their index.
    pub open spec fn spec_config_file() -> PrettyLayout {
        PrettyLayout { depth_limit: 2, separate_tuple_members: true, enumerate_arrays: true }
    }

    /// The layout in which a blank configuration file is written.
    #[verifier::when_used_as_spec(spec_config_file)]
    pub fn config_file() -> (layout: PrettyLayout)
        ensures
            layout == PrettyLayout::spec_config_file(),
    {
        PrettyLayout { depth_limit: 2, separate_tuple_members: true, enumerate_arrays: true }
    }
}

} // verus!

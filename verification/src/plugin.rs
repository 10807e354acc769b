//! What the plugin's entry points decide, beside publishing: the interface
//! version, loading and handing out the configuration, and what a change of
//! configuration means for the connection.

use vstd::prelude::*;
use crate::config::{parse_configuration, parse_text, render_configuration, stored_text};
use crate::config::{default_configuration, ConfigError, ConfigStore, Configuration};
use crate::mqtt::{request_for, setup, teardown, ConnectionSlot, SetupPlan};

verus! {

/// The version of the plugin interface that the bridge speaks.
pub const INTERFACE_VERSION: i32 = 2;

/// What loading a block of configuration text came to.
#[derive(Debug, PartialEq, Eq)]
pub enum LoadOutcome<H> {
    /// The text was empty: the configuration is cleared and the connection,
    /// if one was live, is given back to be shut down.
    Cleared { release: Option<H> },
    /// The text held a configuration: it is in force, and the plan says how
    /// to connect anew.
    Applied { plan: SetupPlan<H> },
    /// The text was refused: nothing has changed.
    Rejected { error: ConfigError },
}

/// Answers the host's question for the interface version.
pub fn plugin_version() -> (version: i32)
    ensures
        version == INTERFACE_VERSION,
{
    INTERFACE_VERSION
}

/// Takes a block of configuration text from the host.
///
/// An empty text clears the configuration and ends the connection. A valid
/// text replaces the configuration as a whole and plans a fresh connection,
/// ending the old one first. Any other text is refused and changes nothing.
pub fn load_configuration<H>(
    store: &mut ConfigStore,
    slot: &mut ConnectionSlot<H>,
    text: &str,
) -> (outcome: LoadOutcome<H>)
    ensures
        match parse_text(text@) {
            Ok(None) => {
                &&& final(store)@ is None
                &&& final(slot)@ is None
                &&& outcome == (LoadOutcome::<H>::Cleared { release: old(slot)@ })
            },
            Ok(Some(config)) => {
                &&& final(store)@ == Some(config)
                &&& final(slot)@ is None
                &&& outcome matches LoadOutcome::Applied { plan }
                &&& plan.release == old(slot)@
                &&& plan.connect matches Some(request)
                &&& request@ == request_for(config)
            },
            Err(error) => {
                &&& final(store)@ == old(store)@
                &&& final(slot)@ == old(slot)@
                &&& outcome == (LoadOutcome::<H>::Rejected { error })
            },
        },
{
    match parse_configuration(text) {
        Ok(None) => {
            let release = teardown(slot);
            store.clear();
            LoadOutcome::Cleared { release }
        },
        Ok(Some(config)) => {
            let plan = apply_configuration(store, slot, config);
            LoadOutcome::Applied { plan }
        },
        Err(error) => LoadOutcome::Rejected { error },
    }
}

/// Puts `config` in force and plans a fresh connection to its broker,
/// ending the old connection first.
pub fn apply_configuration<H>(
    store: &mut ConfigStore,
    slot: &mut ConnectionSlot<H>,
    config: Configuration,
) -> (plan: SetupPlan<H>)
    ensures
        final(store)@ == Some(config@),
        final(slot)@ is None,
        plan.release == old(slot)@,
        plan.connect matches Some(request) && request@ == request_for(config@),
{
    store.apply(config);
    setup(slot, store.current())
}

/// Writes the configuration in force as a block of text for the host; the
/// empty text if none is in force.
pub fn get_configuration(store: &ConfigStore) -> (text: String)
    ensures
        text@ == stored_text(store@),
{
    render_configuration(store.current())
}

/// The values with which an editor of the configuration opens: those in
/// force, or the defaults if none are.
pub fn editor_values(store: &ConfigStore) -> (values: Configuration)
    ensures
        values@ == match store@ {
            Some(config) => config,
            None => default_configuration(),
        },
{
    match store.current() {
        Some(config) => config.clone(),
        None => Configuration::default(),
    }
}

} // verus!

//! What loading or reloading the configuration does: the resolved value,
//! the window setup it asks for and the notification to the frontend.

use vstd::prelude::*;
use crate::config::{resolvable, resolves, AppConfig, ConfigData};

verus! {

/// An outward action that a load asks the host to perform, in order.
#[derive(Debug)]
pub enum LoadEffect {
    /// Size, place and protect the overlay window for this configuration.
    SetupWindow(AppConfig),
    /// Tell the frontend that this configuration is now in force.
    Notify(AppConfig),
}

/// How many notifications a sequence of effects sends.
pub open spec fn notify_count(effects: Seq<LoadEffect>) -> nat
    decreases effects.len(),
{
    if effects.len() == 0 {
        0
    } else {
        let rest = notify_count(effects.drop_last());
        match effects.last() {
            LoadEffect::Notify(_) => rest + 1,
            LoadEffect::SetupWindow(_) => rest,
        }
    }
}

/// The effects of loading configuration `c`, notifying the frontend or not.
pub open spec fn load_effects(c: AppConfig, notify: bool) -> Seq<LoadEffect> {
    if notify {
        seq![LoadEffect::SetupWindow(c), LoadEffect::Notify(c)]
    } else {
        seq![LoadEffect::SetupWindow(c)]
    }
}

/// A reload from `doc` left `after` in the shared slot and asked for
/// `effects`.
pub open spec fn reloaded(doc: Option<ConfigData>, after: AppConfig, effects: Seq<LoadEffect>) -> bool {
    resolves(doc, after) && effects == load_effects(after, true)
}

impl AppConfig {
    /// Resolves the document and lists what to do with the result: set the
    /// window up, then, if `notify`, tell the frontend.
    pub fn load(doc: Option<ConfigData>, notify: bool) -> (r: (AppConfig, Vec<LoadEffect>))
        requires
            resolvable(doc),
        ensures
            resolves(doc, r.0),
            r.1@ == load_effects(r.0, notify),
    {
        let config = AppConfig::resolve(doc);
        let mut effects: Vec<LoadEffect> = Vec::new();
        effects.push(LoadEffect::SetupWindow(config.clone()));
        if notify {
            effects.push(LoadEffect::Notify(config.clone()));
        }
        proof {
            assert(effects@ =~= load_effects(config, notify));
        }
        (config, effects)
    }
}

/// Reloads the configuration from `doc` into the shared slot, whether a
/// file change or the tray asked for it, and returns the effects to perform.
pub fn reload(doc: Option<ConfigData>, slot: &mut AppConfig) -> (r: Vec<LoadEffect>)
    requires
        resolvable(doc),
    ensures
        reloaded(doc, *final(slot), r@),
{
    let (config, effects) = AppConfig::load(doc, true);
    *slot = config;
    effects
}

/// A reload sends exactly one notification, and it carries the value the
/// shared slot holds once the reload is done.
pub proof fn reload_notifies_once(doc: Option<ConfigData>, after: AppConfig, effects: Seq<LoadEffect>)
    requires
        reloaded(doc, after, effects),
    ensures
        notify_count(effects) == 1,
        exists|i: int| 0 <= i < effects.len() && effects[i] == LoadEffect::Notify(after),
        resolves(doc, after),
{
    let e = load_effects(after, true);
    assert(e.drop_last() =~= seq![LoadEffect::SetupWindow(after)]);
    assert(e.drop_last().drop_last() =~= Seq::<LoadEffect>::empty());
    assert(notify_count(e.drop_last().drop_last()) == 0);
    assert(notify_count(e.drop_last()) == 0);
    assert(notify_count(e) == 1);
    assert(effects[1] == LoadEffect::Notify(after));
}

} // verus!

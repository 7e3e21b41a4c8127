//! What the plugin installs into the host when it is built.

use vstd::prelude::*;

verus! {

/// One thing the plugin asks of the host.
#[derive(Clone, Copy, Debug, PartialEq, Eq)]
pub enum Registration {
    /// Make the text component known to the host's reflection.
    TextType,
    /// Run the layout pass in the post-update stage.
    LayoutPass,
    /// Run the host's visibility check, for the entities that carry the text
    /// component, in the post-update stage among its other visibility checks.
    VisibilityPass,
    /// Run the extraction pass in the extraction stage of the rendering
    /// sub-application, after the host's own text extraction.
    ExtractionPass,
}

/// Draws text in the UI at any position, rotation and depth.
#[derive(Clone, Copy, Debug, Default, PartialEq, Eq)]
pub struct IndependentTextPlugin;

/// What the plugin installs, in order. The extraction pass is installed only
/// where there is a rendering sub-application to install it in.
pub open spec fn registrations(render_app: bool) -> Seq<Registration> {
    let always = seq![
        Registration::TextType,
        Registration::LayoutPass,
        Registration::VisibilityPass,
    ];
    if render_app {
        always.push(Registration::ExtractionPass)
    } else {
        always
    }
}

impl IndependentTextPlugin {
    /// Lists what is to be installed, given whether the host has a rendering
    /// sub-application.
    pub fn build(&self, render_app: bool) -> (plan: Vec<Registration>)
        ensures
            plan@ == registrations(render_app),
    {
        let mut plan: Vec<Registration> = Vec::new();
        plan.push(Registration::TextType);
        plan.push(Registration::LayoutPass);
        plan.push(Registration::VisibilityPass);
        if !render_app {
            return plan;
        }
        plan.push(Registration::ExtractionPass);
        plan
    }
}

} // verus!

//! The handle a page receives while its request shows the global loading
//! indicator, and the configuration a loader is started with.

use vstd::prelude::*;

verus! {

/// A running loading indication. Pages call `set_text` to change the line
/// shown under the spinner; dropping the task ends the indication.
pub trait LoadingTask {
    fn set_text(&self, x: Option<String>);
}

/// How a loading indication starts: whether the spinner may wait briefly
/// before becoming fully visible, so short tasks never flash it.
pub struct LoadingTaskConfig {
    delay_full_appearance: bool,
}

impl LoadingTaskConfig {
    pub closed spec fn spec_delay_full_appearance(&self) -> bool {
        self.delay_full_appearance
    }

    /// The same configuration with the delay choice replaced.
    pub fn delay_full_appearance(self, delay_full_appearance: bool) -> (r: LoadingTaskConfig)
        ensures
            r.spec_delay_full_appearance() == delay_full_appearance,
    {
        let mut x = self;
        x.delay_full_appearance = delay_full_appearance;
        x
    }

    pub fn get_delay_full_appearance(&self) -> (r: bool)
        ensures
            r == self.spec_delay_full_appearance(),
    {
        self.delay_full_appearance
    }
}

impl Default for LoadingTaskConfig {
    /// By default the full spinner appearance is delayed.
    fn default() -> (r: LoadingTaskConfig)
        ensures
            r.spec_delay_full_appearance(),
    {
        LoadingTaskConfig { delay_full_appearance: true }
    }
}

} // verus!

//! The option list shown over the settings for settings chosen from a list.

use vstd::prelude::*;

verus! {

/// Widget of a list selection popup.
#[derive(Debug)]
pub struct ListModalWidget {
    pub setting_name: String,
    pub options: Vec<String>,
    pub selected_index: usize,
}

impl Clone for ListModalWidget {
    fn clone(&self) -> (res: Self)
        ensures
            res.setting_name@ == self.setting_name@,
            res.options@.len() == self.options@.len(),
            forall|i: int|
                0 <= i < self.options@.len() ==> (#[trigger] res.options@[i])@ == self.options@[i]@,
            res.selected_index == self.selected_index,
    {
        ListModalWidget {
            setting_name: self.setting_name.clone(),
            options: self.options.clone(),
            selected_index: self.selected_index,
        }
    }
}

impl ListModalWidget {
    /// A list of options for a setting, with one selected.
    pub fn new(setting_name: &str, options: Vec<String>, selected_index: usize) -> (w: Self)
        ensures
            w.setting_name@ == setting_name@,
            w.options == options,
            w.selected_index == selected_index,
    {
        ListModalWidget { setting_name: String::from_str(setting_name), options, selected_index }
    }
}

} // verus!

//! A hyperlink that always asks the host environment for a new browser
//! tab when it is followed, whichever mouse button followed it.

use vstd::prelude::*;

verus! {

/// A request to the host environment to open `url`; `new_tab` asks for a
/// new browser tab.
pub struct OpenUrl {
    pub url: String,
    pub new_tab: bool,
}

/// A hyperlink widget's data: the address it points at and the label it
/// shows.
pub struct CustomHyperlink {
    pub url: String,
    pub text: String,
}

impl CustomHyperlink {
    /// A link whose label is the address itself.
    pub fn new(url: &str) -> (s: CustomHyperlink)
        ensures
            s.url@ == url@,
            s.text@ == url@,
    {
        CustomHyperlink { url: url.to_owned(), text: url.to_owned() }
    }

    /// A link with a label of its own.
    pub fn from_label_and_url(text: &str, url: &str) -> (s: CustomHyperlink)
        ensures
            s.url@ == url@,
            s.text@ == text@,
    {
        CustomHyperlink { url: url.to_owned(), text: text.to_owned() }
    }

    /// Decides what a frame's interaction with the link asks of the host:
    /// a click with either the primary or the middle mouse button requests
    /// the link's address, always in a new tab; anything else requests
    /// nothing.
    pub fn open_url_request(&self, clicked: bool, middle_clicked: bool) -> (r: Option<OpenUrl>)
        ensures
            r.is_some() <==> (clicked || middle_clicked),
            r.is_some() ==> r.unwrap().url@ == self.url@ && r.unwrap().new_tab,
    {
        if clicked || middle_clicked {
            Some(OpenUrl { url: self.url.clone(), new_tab: true })
        } else {
            None
        }
    }
}

} // verus!

//! Checks on a freshly launched browser.

use vstd::prelude::*;
use vstd::string::*;

verus! {

/// A page (target) of the browser: its id and the address it shows.
#[derive(Debug)]
pub struct TargetInfo {
    pub target_id: String,
    pub url: String,
}

/// Why the pages of a freshly launched browser are not as expected.
#[derive(Debug, Clone, Copy, PartialEq, Eq)]
pub enum TargetsError {
    /// The browser does not have exactly one page.
    NotOnePage,
    /// The browser's one page is not the new-tab page.
    UnexpectedPage,
}

/// The address of the new-tab page.
pub open spec fn newtab_url() -> Seq<char> {
    "chrome://newtab/"@
}

/// A freshly launched browser shows exactly one page, the new-tab page; the
/// program closes it before it opens the served page. Returns the id of that
/// page, or why the browser's pages are not so.
pub fn newtab_target(targets: &Vec<TargetInfo>) -> (r: Result<String, TargetsError>)
    ensures
        targets@.len() != 1 ==> r == Err::<String, TargetsError>(TargetsError::NotOnePage),
        targets@.len() == 1 && targets@[0].url@ != newtab_url() ==> r == Err::<String, TargetsError>(
            TargetsError::UnexpectedPage,
        ),
        targets@.len() == 1 && targets@[0].url@ == newtab_url() ==> (r matches Ok(id) && id@
            == targets@[0].target_id@),
{
    if targets.len() != 1 {
        return Err(TargetsError::NotOnePage);
    }
    let target = &targets[0];
    let newtab = String::from_str("chrome://newtab/");
    if target.url != newtab {
        return Err(TargetsError::UnexpectedPage);
    }
    Ok(target.target_id.clone())
}

} // verus!

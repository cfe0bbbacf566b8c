//! Facts about the machine, and the command that asks the system to make
//! this program the default browser.
use vstd::prelude::*;
use crate::text::strings_view;
use crate::types::Platform;

verus! {

/// Whether this build is for a target with 64-bit pointers.
pub fn is_64() -> (r: bool)
    ensures
        r == (vstd::layout::size_of::<usize>() == 8),
{
    core::mem::size_of::<usize>() == 8
}

/// The program that lets the user pick the default browser, and its
/// arguments: Windows opens the Default Programs page of its control panel;
/// the other platforms run no program for it.
pub open spec fn default_browser_settings(platform: Platform) -> Option<
    (Seq<char>, Seq<Seq<char>>),
> {
    if platform == Platform::Windows {
        Some(
            (
                "control"@,
                seq!["/name"@, "Microsoft.DefaultPrograms"@, "/page"@, "pageDefaultProgram"@],
            ),
        )
    } else {
        None
    }
}

/// The command to run so that the user can make this program the default
/// browser, where the platform has one.
pub fn set_default_browser(platform: Platform) -> (r: Option<(String, Vec<String>)>)
    ensures
        match r {
            Some((exe, args)) => default_browser_settings(platform) == Some(
                (exe@, strings_view(args@)),
            ),
            None => default_browser_settings(platform) is None,
        },
{
    if platform == Platform::Windows {
        let args = vec![
            String::from_str("/name"),
            String::from_str("Microsoft.DefaultPrograms"),
            String::from_str("/page"),
            String::from_str("pageDefaultProgram"),
        ];
        assert(strings_view(args@) =~= seq![
            "/name"@,
            "Microsoft.DefaultPrograms"@,
            "/page"@,
            "pageDefaultProgram"@,
        ]);
        Some((String::from_str("control"), args))
    } else {
        None
    }
}

} // verus!

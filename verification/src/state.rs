//! Where the application keeps its data.
use vstd::prelude::*;

use crate::platform::Platform;

verus! {

/// The path components of the data directory, from the environment: on macOS
/// `$HOME/Library/Application Support/pl.gadaj.app`; on Windows
/// `%APPDATA%/pl.gadaj.app`; on Linux `$XDG_DATA_HOME/gadaj`, or
/// `$HOME/.local/share/gadaj` when that is unset. `None` when the variable it
/// needs is unset.
pub open spec fn spec_app_data_dir(platform: Platform, home: Option<Seq<char>>, appdata: Option<Seq<char>>, xdg_data_home: Option<Seq<char>>) -> Option<Seq<Seq<char>>> {
    match platform {
        Platform::MacOs => match home {
            Some(h) => Some(seq![h, "Library"@, "Application Support"@, "pl.gadaj.app"@]),
            None => None,
        },
        Platform::Windows => match appdata {
            Some(p) => Some(seq![p, "pl.gadaj.app"@]),
            None => None,
        },
        Platform::Linux => match xdg_data_home {
            Some(p) => Some(seq![p, "gadaj"@]),
            None => match home {
                Some(h) => Some(seq![h, ".local"@, "share"@, "gadaj"@]),
                None => None,
            },
        },
    }
}

pub open spec fn opt_chars(o: Option<String>) -> Option<Seq<char>> {
    match o {
        Some(s) => Some(s@),
        None => None,
    }
}

pub open spec fn components_view(v: Seq<String>) -> Seq<Seq<char>> {
    v.map_values(|s: String| s@)
}

/// The data directory's path components for `platform`, given the values of the
/// `HOME`, `APPDATA` and `XDG_DATA_HOME` environment variables.
pub fn dirs_app_data(platform: Platform, home: Option<String>, appdata: Option<String>, xdg_data_home: Option<String>) -> (r: Option<Vec<String>>)
    ensures
        (match r { Some(v) => Some(components_view(v@)), None => None })
            == spec_app_data_dir(platform, opt_chars(home), opt_chars(appdata), opt_chars(xdg_data_home)),
{
    let mut v: Vec<String> = Vec::new();
    match platform {
        Platform::MacOs => match home {
            Some(h) => {
                v.push(h);
                v.push(String::from_str("Library"));
                v.push(String::from_str("Application Support"));
                v.push(String::from_str("pl.gadaj.app"));
            },
            None => return None,
        },
        Platform::Windows => match appdata {
            Some(p) => {
                v.push(p);
                v.push(String::from_str("pl.gadaj.app"));
            },
            None => return None,
        },
        Platform::Linux => match xdg_data_home {
            Some(p) => {
                v.push(p);
                v.push(String::from_str("gadaj"));
            },
            None => match home {
                Some(h) => {
                    v.push(h);
                    v.push(String::from_str(".local"));
                    v.push(String::from_str("share"));
                    v.push(String::from_str("gadaj"));
                },
                None => return None,
            },
        },
    }
    proof {
        let want = spec_app_data_dir(platform, opt_chars(home), opt_chars(appdata), opt_chars(xdg_data_home));
        assert(components_view(v@) =~= want->0);
    }
    Some(v)
}

} // verus!

//! Where the application's own icons are.

use vstd::prelude::*;

use crate::services::normalize::{first_found, opt_str_view};
use crate::system::paths::{join_path, joined};
use crate::text::{copy_string, views};

verus! {

/// The icon name of FindApps in icon themes.
pub const APP_ICON_NAME: &'static str = "br.com.findapps.FindApps";

/// The directory holding the application's themed icons: the snap's
/// `usr/share/icons` when running as a snap and that directory exists,
/// else `data/icons` of the source tree.
pub fn icon_theme_dir<F: Fn(&String) -> bool>(snap: Option<&str>, source_dir: &str, is_dir: &F) -> (r: String)
    requires
        forall|s: &String| #[trigger] is_dir.requires((s,)),
    ensures
        (match snap {
            Some(root) => (r@ == joined(root@, "usr/share/icons"@) && exists|d: String|
                d@ == r@ && is_dir.ensures((&d,), true)) || (r@ == joined(source_dir@, "data/icons"@)
                && exists|d: String|
                d@ == joined(root@, "usr/share/icons"@) && is_dir.ensures((&d,), false)),
            None => r@ == joined(source_dir@, "data/icons"@),
        }),
{
    if let Some(root) = snap {
        let icons = join_path(root, "usr/share/icons");
        if is_dir(&icons) {
            return icons;
        }
    }
    join_path(source_dir, "data/icons")
}

/// The places where the high-resolution logo may be, in order: inside the
/// snap (when running as one), in the source tree, then installed.
pub open spec fn logo_candidates(snap: Option<Seq<char>>, source_dir: Seq<char>) -> Seq<Seq<char>> {
    (match snap {
        Some(root) => seq![
            joined(root, "usr/share/findapps/br.com.findapps.FindApps.png"@),
            joined(root, "usr/share/icons/hicolor/256x256/apps/br.com.findapps.FindApps.png"@),
            joined(root, "usr/share/icons/hicolor/128x128/apps/br.com.findapps.FindApps.png"@),
        ],
        None => Seq::empty(),
    }) + seq![
        joined(source_dir, "resources/icons/br.com.findapps.FindApps.png"@),
        joined(source_dir, "resources/icons/findapps.png"@),
        "/usr/share/findapps/br.com.findapps.FindApps.png"@,
        "/usr/share/icons/hicolor/256x256/apps/br.com.findapps.FindApps.png"@,
        "/usr/share/icons/hicolor/128x128/apps/br.com.findapps.FindApps.png"@,
    ]
}

/// The logo file: the first candidate that `is_file` reports as a file,
/// else the source tree's logo.
pub fn logo_path<F: Fn(&String) -> bool>(snap: Option<&str>, source_dir: &str, is_file: &F) -> (r: String)
    requires
        forall|s: &String| #[trigger] is_file.requires((s,)),
    ensures
        exists|cs: Seq<String>, found: Option<String>|
            {
                &&& views(cs) == logo_candidates(opt_str_view(snap), source_dir@)
                &&& first_found(cs, *is_file, found)
                &&& r@ == (match found {
                    Some(p) => p@,
                    None => joined(source_dir@, "resources/icons/br.com.findapps.FindApps.png"@),
                })
            },
{
    let mut cs: Vec<String> = Vec::new();
    if let Some(root) = snap {
        cs.push(join_path(root, "usr/share/findapps/br.com.findapps.FindApps.png"));
        cs.push(join_path(root, "usr/share/icons/hicolor/256x256/apps/br.com.findapps.FindApps.png"));
        cs.push(join_path(root, "usr/share/icons/hicolor/128x128/apps/br.com.findapps.FindApps.png"));
    }
    cs.push(join_path(source_dir, "resources/icons/br.com.findapps.FindApps.png"));
    cs.push(join_path(source_dir, "resources/icons/findapps.png"));
    cs.push(copy_string("/usr/share/findapps/br.com.findapps.FindApps.png"));
    cs.push(copy_string("/usr/share/icons/hicolor/256x256/apps/br.com.findapps.FindApps.png"));
    cs.push(copy_string("/usr/share/icons/hicolor/128x128/apps/br.com.findapps.FindApps.png"));
    assert(views(cs@) =~= logo_candidates(opt_str_view(snap), source_dir@));
    let ghost all = cs@;
    let n = cs.len();
    let mut i: usize = 0;
    while i < n
        invariant
            i <= n == cs@.len(),
            cs@ == all,
            views(all) == logo_candidates(opt_str_view(snap), source_dir@),
            forall|s: &String| #[trigger] is_file.requires((s,)),
            forall|j: int| 0 <= j < i ==> is_file.ensures((&cs@[j],), false),
        decreases n - i,
    {
        if is_file(&cs[i]) {
            let p = cs[i].clone();
            assert(first_found(all, *is_file, Some(p)));
            return p;
        }
        i = i + 1;
    }
    assert(first_found(all, *is_file, None));
    join_path(source_dir, "resources/icons/br.com.findapps.FindApps.png")
}

} // verus!

use vstd::prelude::*;
use crate::role::{rank, Role};

verus! {

/// An entry of the top navigation bar, shown to callers of at least `role`.
#[derive(Debug)]
pub struct NavigationItem {
    pub name: String,
    pub url: String,
    pub tag: String,
    pub locale: String,
    pub role: Role,
}

/// The characters of a navigation entry.
pub struct NavView {
    pub name: Seq<char>,
    pub url: Seq<char>,
    pub tag: Seq<char>,
    pub locale: Seq<char>,
    pub role: Role,
}

pub open spec fn nav_view(item: NavigationItem) -> NavView {
    NavView { name: item.name@, url: item.url@, tag: item.tag@, locale: item.locale@, role: item.role }
}

pub open spec fn nav_views(items: Seq<NavigationItem>) -> Seq<NavView> {
    items.map_values(|i: NavigationItem| nav_view(i))
}

pub open spec fn entry_views(entries: Seq<(NavigationItem, bool)>) -> Seq<(NavView, bool)> {
    entries.map_values(|e: (NavigationItem, bool)| (nav_view(e.0), e.1))
}

/// The navigation bar, in display order.
pub open spec fn nav_table() -> Seq<NavView> {
    seq![
        NavView {
            name: "Home"@,
            url: "/"@,
            tag: "home"@,
            locale: "top-navigation-home"@,
            role: Role::Visitor,
        },
        NavView {
            name: "URL Redirect"@,
            url: "/shorty"@,
            tag: "shorty"@,
            locale: "top-navigation-url"@,
            role: Role::User,
        },
        NavView {
            name: "User"@,
            url: "/user"@,
            tag: "user"@,
            locale: "top-navigation-user"@,
            role: Role::User,
        },
        NavView {
            name: "Stack"@,
            url: "/stack"@,
            tag: "stack"@,
            locale: "top-navigation-stack"@,
            role: Role::Root,
        },
    ]
}

/// The entries of `items` a caller at level `role` sees, in order, each
/// with whether it is the page tagged `current`.
pub open spec fn visible_entries(items: Seq<NavView>, role: Role, current: Seq<char>) -> Seq<
    (NavView, bool),
>
    decreases items.len(),
{
    if items.len() == 0 {
        Seq::empty()
    } else {
        let last = items.last();
        let before = visible_entries(items.drop_last(), role, current);
        if rank(last.role) <= rank(role) {
            before.push((last, last.tag == current))
        } else {
            before
        }
    }
}

fn item(name: &str, url: &str, tag: &str, locale: &str, role: Role) -> (r: NavigationItem)
    ensures
        nav_view(r) == (NavView { name: name@, url: url@, tag: tag@, locale: locale@, role }),
{
    NavigationItem {
        name: name.to_owned(),
        url: url.to_owned(),
        tag: tag.to_owned(),
        locale: locale.to_owned(),
        role,
    }
}

impl NavigationItem {
    /// Every entry of the navigation bar, in display order.
    pub fn navigations() -> (r: Vec<NavigationItem>)
        ensures
            nav_views(r@) == nav_table(),
    {
        let mut v: Vec<NavigationItem> = Vec::new();
        v.push(item("Home", "/", "home", "top-navigation-home", Role::Visitor));
        v.push(item("URL Redirect", "/shorty", "shorty", "top-navigation-url", Role::User));
        v.push(item("User", "/user", "user", "top-navigation-user", Role::User));
        v.push(item("Stack", "/stack", "stack", "top-navigation-stack", Role::Root));
        assert(nav_views(v@) =~= nav_table());
        v
    }

    /// The entries shown to a caller at level `role` on the page tagged
    /// `current`, in order, each with whether it is that page.
    pub fn visible_for(role: Role, current: &str) -> (r: Vec<(NavigationItem, bool)>)
        ensures
            entry_views(r@) == visible_entries(
                nav_table(),
                role,
                current@,
            ),
    {
        let all = NavigationItem::navigations();
        let ghost table = nav_views(all@);
        let mut out: Vec<(NavigationItem, bool)> = Vec::new();
        let mut rest = all;
        let mut i: usize = 0;
        let n = rest.len();
        let current_text: String = current.to_owned();
        proof {
            assert(table.take(0) =~= Seq::<NavView>::empty());
        }
        while i < n
            invariant
                n == table.len(),
                i <= n,
                rest@.len() == n - i,
                forall|k: int| 0 <= k < n - i ==> #[trigger] nav_view(rest@[k]) == table[i + k],
                entry_views(out@)
                    == visible_entries(table.take(i as int), role, current@),
                current_text@ == current@,
            decreases n - i,
        {
            let entry = rest.remove(0);
            let ghost before = out@;
            proof {
                assert(table.take(i as int + 1).drop_last() =~= table.take(i as int));
                assert(table.take(i as int + 1).last() == table[i as int]);
            }
            assert(nav_view(entry) == table[i as int]);
            if entry.role.level() <= role.level() {
                let active = entry.tag == current_text;
                out.push((entry, active));
                assert(entry_views(out@)
                    =~= entry_views(before).push(
                    (table[i as int], table[i as int].tag == current@),
                ));
            } else {
                assert(rank(table[i as int].role) > rank(role));
            }
            i = i + 1;
        }
        assert(table.take(n as int) =~= table);
        out
    }
}

} // verus!

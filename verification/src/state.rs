use vstd::prelude::*;

use crate::conf::{Configuration, ConfigurationView};
use crate::os::debian::{apt, debian};
use crate::os::pkg::Packager;
use crate::os::{Kind, OperatingSystem, OperatingSystemView};
use crate::run::{Order, TaskView};
use crate::text::{chars_of, lines, lines_of, rows, same_chars, split_once, split_once_chars};

verus! {

/// The model of the state of a run.
pub struct StateView {
    pub configuration: ConfigurationView,
    pub os: OperatingSystemView,
    pub orders: Seq<Seq<TaskView>>,
}

/// What a run works with: the configuration, the system, and the orders.
#[derive(Debug, Clone, PartialEq, Eq)]
pub struct State {
    configuration: Configuration,
    os: OperatingSystem,
    orders: Vec<Order>,
}

/// The views of a sequence of orders.
pub open spec fn order_views(v: Seq<Order>) -> Seq<Seq<TaskView>> {
    v.map_values(|o: Order| o@)
}

impl View for State {
    type V = StateView;

    closed spec fn view(&self) -> StateView {
        StateView {
            configuration: self.configuration@,
            os: self.os@,
            orders: order_views(self.orders@),
        }
    }
}

/// Copies of orders.
fn copy_orders(orders: &[Order]) -> (r: Vec<Order>)
    ensures
        order_views(r@) == order_views(orders@),
{
    let mut r: Vec<Order> = Vec::new();
    let mut i: usize = 0;
    while i < orders.len()
        invariant
            i <= orders.len(),
            order_views(r@) =~= order_views(orders@).take(i as int),
        decreases orders.len() - i,
    {
        let o = orders[i].duplicate();
        let ghost before = r@;
        r.push(o);
        assert(order_views(r@) =~= order_views(before).push(o@));
        i += 1;
    }
    assert(order_views(orders@).take(orders.len() as int) =~= order_views(orders@));
    r
}

impl State {
    /// A state of the given parts.
    pub fn new(config: &Configuration, os: &OperatingSystem, orders: &[Order]) -> (r: State)
        ensures
            r@ == (StateView { configuration: config@, os: os@, orders: order_views(orders@) }),
    {
        State { configuration: config.duplicate(), os: *os, orders: copy_orders(orders) }
    }

    /// The configuration.
    pub fn configuration(&self) -> (r: Configuration)
        ensures
            r@ == self@.configuration,
    {
        self.configuration.duplicate()
    }

    /// The operating system.
    pub fn os(&self) -> (r: OperatingSystem)
        ensures
            r@ == self@.os,
    {
        self.os
    }

    /// The orders.
    pub fn orders(&self) -> (r: Vec<Order>)
        ensures
            order_views(r@) == self@.orders,
    {
        copy_orders(self.orders.as_slice())
    }
}

/// The state of a run: the configuration, the system that the contents of
/// `/etc/os-release` (where it could be read) or else the output of
/// `uname --operating-system` (where it could be read) show, and the orders.
pub fn setup(config: &Configuration, orders: &[Order], os_release: Option<&str>, uname: Option<&str>) -> (r: State)
    ensures
        r@ == (StateView {
            configuration: config@,
            os: detected(
                match os_release {
                    Some(s) => Some(s@),
                    None => None,
                },
                match uname {
                    Some(s) => Some(s@),
                    None => None,
                },
            ),
            orders: order_views(orders@),
        }),
{
    let os = detect_os(os_release, uname);
    State::new(config, &os, orders)
}

/// A value of `/etc/os-release` without the double quotes around it: a
/// leading quote is dropped, then a trailing one; where there is no trailing
/// quote the value stays as it was, leading quote and all.
pub open spec fn strip_quotes(s: Seq<char>) -> Seq<char> {
    let no_prefix = if s.len() > 0 && s[0] == '"' {
        s.drop_first()
    } else {
        s
    };
    if no_prefix.len() > 0 && no_prefix.last() == '"' {
        no_prefix.drop_last()
    } else {
        s
    }
}

/// Strips the double quotes around a value.
pub fn strip_quotes_of(value: &[char]) -> (r: Vec<char>)
    ensures
        r@ == strip_quotes(value@),
{
    let n = value.len();
    let start: usize = if n > 0 && value[0] == '"' {
        1
    } else {
        0
    };
    if n > start && value[n - 1] == '"' {
        let mut r: Vec<char> = Vec::new();
        let mut i: usize = start;
        while i < n - 1
            invariant
                start <= i <= n - 1,
                n == value.len(),
                r@ == value@.subrange(start as int, i as int),
            decreases n - 1 - i,
        {
            r.push(value[i]);
            assert(value@.subrange(start as int, i + 1) == value@.subrange(
                start as int,
                i as int,
            ).push(value@[i as int]));
            i += 1;
        }
        assert(start == 1 ==> value@.drop_first() == value@.subrange(1, n as int));
        assert(start == 0 ==> value@ == value@.subrange(0, n as int));
        r
    } else {
        crate::text::copy_chars(value)
    }
}

/// The value that the last line `key=value` of an os-release file with the
/// given key sets, its quotes stripped.
pub open spec fn release_field(lines: Seq<Seq<char>>, key: Seq<char>) -> Option<Seq<char>>
    decreases lines.len(),
{
    if lines.len() == 0 {
        None
    } else {
        match split_once(lines.last(), '=') {
            Some((k, v)) => if k == key {
                Some(strip_quotes(v))
            } else {
                release_field(lines.drop_last(), key)
            },
            None => release_field(lines.drop_last(), key),
        }
    }
}

/// The system that os-release contents, or else the output of uname, show:
/// Debian where the name is `Debian GNU/Linux`, unknown otherwise.
pub open spec fn detected(os_release: Option<Seq<char>>, uname: Option<Seq<char>>) -> OperatingSystemView {
    let debian = OperatingSystemView { kind: Kind::Debian, packager: Packager::Apt(apt()) };
    let unknown = OperatingSystemView { kind: Kind::Unknown, packager: Packager::Unknown };
    match os_release {
        Some(c) => if release_field(lines(c), "NAME"@) == Some("Debian GNU/Linux"@) {
            debian
        } else {
            unknown
        },
        None => match uname {
            Some(u) => if u == "Debian GNU/Linux"@ {
                debian
            } else {
                unknown
            },
            None => unknown,
        },
    }
}

/// The `NAME` that os-release contents set.
fn release_name(contents: &str) -> (r: Option<Vec<char>>)
    ensures
        match r {
            Some(v) => release_field(lines(contents@), "NAME"@) == Some(v@),
            None => release_field(lines(contents@), "NAME"@) is None,
        },
{
    let text = chars_of(contents);
    let ls = lines_of(&text);
    let key = chars_of("NAME");
    let ghost lv = rows(ls@);
    let mut found: Option<Vec<char>> = None;
    let mut i: usize = 0;
    while i < ls.len()
        invariant
            i <= ls.len(),
            lv == rows(ls@),
            key@ == "NAME"@,
            match found {
                Some(v) => release_field(lv.take(i as int), "NAME"@) == Some(v@),
                None => release_field(lv.take(i as int), "NAME"@) is None,
            },
        decreases ls.len() - i,
    {
        assert(lv.take(i + 1).drop_last() == lv.take(i as int));
        assert(lv[i as int] == ls@[i as int]@);
        match split_once_chars(&ls[i], '=') {
            Some((k, v)) => {
                if same_chars(&k, &key) {
                    found = Some(strip_quotes_of(&v));
                }
            },
            None => {},
        }
        i += 1;
    }
    assert(lv.take(ls.len() as int) == lv);
    found
}

/// The system that os-release contents, or else the output of uname, show.
pub fn detect_os(os_release: Option<&str>, uname: Option<&str>) -> (r: OperatingSystem)
    ensures
        r@ == detected(
            match os_release {
                Some(s) => Some(s@),
                None => None,
            },
            match uname {
                Some(s) => Some(s@),
                None => None,
            },
        ),
{
    let name = chars_of("Debian GNU/Linux");
    match os_release {
        Some(contents) => {
            match release_name(contents) {
                Some(v) => {
                    if same_chars(&v, &name) {
                        return debian();
                    }
                },
                None => {},
            }
            OperatingSystem::unknown()
        },
        None => match uname {
            Some(u) => {
                let out = chars_of(u);
                if same_chars(&out, &name) {
                    debian()
                } else {
                    OperatingSystem::unknown()
                }
            },
            None => OperatingSystem::unknown(),
        },
    }
}

/// A value in double quotes loses exactly its quotes.
pub proof fn lemma_strip_quoted(value: Seq<char>)
    ensures
        strip_quotes(seq!['"'] + value + seq!['"']) == value,
{
    let s = seq!['"'] + value + seq!['"'];
    assert(s.drop_first() =~= value + seq!['"']);
    assert((value + seq!['"']).drop_last() =~= value);
}

/// A value without quotes at either end stays as it is.
pub proof fn lemma_strip_unquoted(value: Seq<char>)
    requires
        value.len() == 0 || (value[0] != '"' && value.last() != '"'),
    ensures
        strip_quotes(value) == value,
{
}

} // verus!

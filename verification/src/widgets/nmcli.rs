//! Reading what the network manager's command-line tool writes.
//!
//! The caller runs the tool and hands its output over as text; the
//! functions here turn that text into the data of the network pane.

use crate::command::{CommandResult, CommandResultView};
use crate::text::{
    after, after_char, before, before_char, chars_eq_str, from_chars, lemma_strings_view_push,
    lines, parse_u8, parse_u8_chars, push_chars, push_text, repeat, repeat_char, slice_views,
    split_lines, starts_with_str, strings_view, to_chars, trim, trim_chars,
};
use crate::widgets::net_connect::{networks_view, NetConnect};
use vstd::prelude::*;

verus! {

/// The most networks that the pane lists.
pub const MAX_NETWORKS: usize = 10;

// ---------------------------------------------------------------------------
// The list of networks
// ---------------------------------------------------------------------------

/// The network that one line of the terse listing `name:signal` tells of.
/// The name is what stands before the first colon, the signal what stands
/// behind it, both trimmed.  A line without a colon, with a signal that is
/// no number below 256, or with an empty name tells of none.
pub open spec fn network_of_line(line: Seq<char>) -> Option<(Seq<char>, u8)> {
    let name = trim(before(line, ':'));
    match after(line, ':') {
        None => None,
        Some(rest) => match parse_u8(trim(rest)) {
            None => None,
            Some(signal) => if name.len() == 0 {
                None
            } else {
                Some((name, signal))
            },
        },
    }
}

/// The networks that the lines tell of, in the order of the lines.
pub open spec fn networks_of_lines(lines: Seq<Seq<char>>) -> Seq<(Seq<char>, u8)>
    decreases lines.len(),
{
    if lines.len() == 0 {
        Seq::empty()
    } else {
        let head = networks_of_lines(lines.drop_last());
        match network_of_line(lines.last()) {
            Some(network) => head.push(network),
            None => head,
        }
    }
}

/// `sorted` with `x` put behind the last entry whose signal is at least as
/// strong as that of `x`.
pub open spec fn insert_by_signal(sorted: Seq<(Seq<char>, u8)>, x: (Seq<char>, u8)) -> Seq<
    (Seq<char>, u8),
>
    decreases sorted.len(),
{
    if sorted.len() > 0 && sorted.last().1 < x.1 {
        insert_by_signal(sorted.drop_last(), x).push(sorted.last())
    } else {
        sorted.push(x)
    }
}

/// The networks of `s` from the strongest signal to the weakest; networks of
/// equal signal keep the order they had in `s`.
pub open spec fn sort_by_signal(s: Seq<(Seq<char>, u8)>) -> Seq<(Seq<char>, u8)>
    decreases s.len(),
{
    if s.len() == 0 {
        s
    } else {
        insert_by_signal(sort_by_signal(s.drop_last()), s.last())
    }
}

/// No entry of `s` has a weaker signal than an entry behind it.
pub open spec fn is_descending(s: Seq<(Seq<char>, u8)>) -> bool {
    forall|i: int, j: int| 0 <= i < j < s.len() ==> s[i].1 >= s[j].1
}

/// The first `MAX_NETWORKS` entries of `s`, or all of them where there are
/// fewer.
pub open spec fn capped(s: Seq<(Seq<char>, u8)>) -> Seq<(Seq<char>, u8)> {
    if s.len() > MAX_NETWORKS {
        s.take(MAX_NETWORKS as int)
    } else {
        s
    }
}

/// What the pane lists for the output `stdout` of the terse listing: the
/// networks that its lines tell of, strongest first, no more than
/// `MAX_NETWORKS` of them.  Two networks of the same signal are both
/// listed.
pub open spec fn wifi_list_of(stdout: Seq<char>) -> Seq<(Seq<char>, u8)> {
    capped(sort_by_signal(networks_of_lines(lines(stdout))))
}

/// Where `x` goes in `sorted`: the place `p` such that every entry from `p`
/// on is weaker than `x` and the entry before `p` is not.
pub proof fn lemma_insert_position(sorted: Seq<(Seq<char>, u8)>, x: (Seq<char>, u8), p: int)
    requires
        0 <= p <= sorted.len(),
        forall|j: int| p <= j < sorted.len() ==> sorted[j].1 < x.1,
        p > 0 ==> sorted[p - 1].1 >= x.1,
    ensures
        insert_by_signal(sorted, x) == sorted.insert(p, x),
    decreases sorted.len(),
{
    if p == sorted.len() {
        assert(sorted.insert(p, x) =~= sorted.push(x));
    } else {
        lemma_insert_position(sorted.drop_last(), x, p);
        assert(sorted.drop_last().insert(p, x).push(sorted.last()) =~= sorted.insert(p, x));
    }
}

/// Putting a network into a list that is in descending order keeps the
/// order, and adds that network and no other.
pub proof fn lemma_insert_by_signal(sorted: Seq<(Seq<char>, u8)>, x: (Seq<char>, u8))
    requires
        is_descending(sorted),
    ensures
        is_descending(insert_by_signal(sorted, x)),
        insert_by_signal(sorted, x).len() == sorted.len() + 1,
        insert_by_signal(sorted, x).to_multiset() == sorted.to_multiset().insert(x),
    decreases sorted.len(),
{
    broadcast use vstd::seq_lib::group_to_multiset_ensures;

    if sorted.len() > 0 && sorted.last().1 < x.1 {
        let front = sorted.drop_last();
        let last = sorted.last();
        lemma_insert_by_signal(front, x);
        let inner = insert_by_signal(front, x);
        let out = inner.push(last);
        assert(sorted =~= front.push(last));
        assert forall|i: int, j: int| 0 <= i < j < out.len() implies out[i].1 >= out[j].1 by {
            if j == out.len() - 1 {
                // every entry of `inner` is `x` or an entry of `front`
                assert(inner.to_multiset().count(inner[i]) > 0);
                if inner[i] != x {
                    assert(front.to_multiset().count(inner[i]) > 0);
                    let k = choose|k: int| 0 <= k < front.len() && front[k] == inner[i];
                    assert(sorted[k].1 >= sorted[sorted.len() - 1].1);
                }
            }
        }
        assert(out.to_multiset() =~= sorted.to_multiset().insert(x));
    } else {
        let out = sorted.push(x);
        assert forall|i: int, j: int| 0 <= i < j < out.len() implies out[i].1 >= out[j].1 by {
            if j == out.len() - 1 {
                assert(sorted[i].1 >= sorted.last().1);
            }
        }
    }
}

/// Sorting puts the networks in descending order of signal and neither
/// loses nor adds one.
pub proof fn lemma_sort_by_signal(s: Seq<(Seq<char>, u8)>)
    ensures
        is_descending(sort_by_signal(s)),
        sort_by_signal(s).len() == s.len(),
        sort_by_signal(s).to_multiset() == s.to_multiset(),
    decreases s.len(),
{
    broadcast use vstd::seq_lib::group_to_multiset_ensures;

    if s.len() > 0 {
        lemma_sort_by_signal(s.drop_last());
        lemma_insert_by_signal(sort_by_signal(s.drop_last()), s.last());
        assert(s =~= s.drop_last().push(s.last()));
    }
}

/// Whether a network has the signal `signal`.
pub open spec fn has_signal(signal: u8) -> spec_fn((Seq<char>, u8)) -> bool {
    |e: (Seq<char>, u8)| e.1 == signal
}

/// Putting a network into a list adds it behind the networks of its own
/// signal, and changes nothing among the networks of any other signal.
pub proof fn lemma_insert_is_stable(sorted: Seq<(Seq<char>, u8)>, x: (Seq<char>, u8), signal: u8)
    ensures
        insert_by_signal(sorted, x).filter(has_signal(signal)) == if x.1 == signal {
            sorted.filter(has_signal(signal)).push(x)
        } else {
            sorted.filter(has_signal(signal))
        },
    decreases sorted.len(),
{
    let p = has_signal(signal);
    if sorted.len() > 0 && sorted.last().1 < x.1 {
        let front = sorted.drop_last();
        let last = sorted.last();
        lemma_insert_is_stable(front, x, signal);
        assert(sorted =~= front.push(last));
        front.lemma_filter_push(last, p);
        insert_by_signal(front, x).lemma_filter_push(last, p);
    } else {
        sorted.lemma_filter_push(x, p);
    }
}

/// Sorting is stable: the networks of one signal stand in the sorted list
/// in the order in which they stood before.
pub proof fn lemma_sort_is_stable(s: Seq<(Seq<char>, u8)>, signal: u8)
    ensures
        sort_by_signal(s).filter(has_signal(signal)) == s.filter(has_signal(signal)),
    decreases s.len(),
{
    if s.len() > 0 {
        let front = s.drop_last();
        lemma_sort_is_stable(front, signal);
        lemma_insert_is_stable(sort_by_signal(front), s.last(), signal);
        assert(s =~= front.push(s.last()));
        front.lemma_filter_push(s.last(), has_signal(signal));
    }
}

/// The list of the pane is in descending order of signal, holds at most
/// `MAX_NETWORKS` networks, and each of them is told of by a line of the
/// output.
pub proof fn lemma_wifi_list_of(stdout: Seq<char>)
    ensures
        is_descending(wifi_list_of(stdout)),
        wifi_list_of(stdout).len() <= MAX_NETWORKS,
        wifi_list_of(stdout).len() <= networks_of_lines(lines(stdout)).len(),
        forall|i: int|
            0 <= i < wifi_list_of(stdout).len() ==> networks_of_lines(lines(stdout)).contains(
                #[trigger] wifi_list_of(stdout)[i],
            ),
{
    broadcast use vstd::seq_lib::group_to_multiset_ensures;

    let all = networks_of_lines(lines(stdout));
    let sorted = sort_by_signal(all);
    lemma_sort_by_signal(all);
    let list = wifi_list_of(stdout);
    assert forall|i: int| 0 <= i < list.len() implies all.contains(#[trigger] list[i]) by {
        assert(list[i] == sorted[i]);
        assert(sorted.to_multiset().count(sorted[i]) > 0);
    }
}

/// Reads one line of the terse listing.
/// What the pane lists for the outcome of a run of the terse listing: the
/// list that its output gives, and none where the command could not be run
/// or reported a failure.
pub open spec fn wifi_list_of_result(result: CommandResultView) -> Option<Seq<(Seq<char>, u8)>> {
    match result.output() {
        Some(stdout) => Some(wifi_list_of(stdout)),
        None => None,
    }
}

/// The view of a list of networks that may be missing.
pub open spec fn networks_option_view(list: Option<Vec<(String, u8)>>) -> Option<
    Seq<(Seq<char>, u8)>,
> {
    match list {
        Some(l) => Some(networks_view(l@)),
        None => None,
    }
}

fn parse_network(line: &[char]) -> (r: Option<(String, u8)>)
    ensures
        match r {
            Some(n) => network_of_line(line@) == Some((n.0@, n.1)),
            None => network_of_line(line@) is None,
        },
{
    let name = trim_chars(before_char(line, ':'));
    match after_char(line, ':') {
        None => None,
        Some(rest) => match parse_u8_chars(trim_chars(rest)) {
            None => None,
            Some(signal) => if name.len() == 0 {
                None
            } else {
                Some((from_chars(name), signal))
            },
        },
    }
}

/// Puts `x` into the list behind the last entry that is at least as
/// strong.
fn insert_network(sorted: &mut Vec<(String, u8)>, x: (String, u8))
    ensures
        networks_view(final(sorted)@) == insert_by_signal(
            networks_view(old(sorted)@),
            (x.0@, x.1),
        ),
{
    let ghost before = networks_view(sorted@);
    let ghost xv = (x.0@, x.1);
    let mut p = sorted.len();
    while p > 0 && sorted[p - 1].1 < x.1
        invariant
            p <= sorted.len(),
            before == networks_view(sorted@),
            forall|j: int| p <= j < before.len() ==> before[j].1 < x.1,
        decreases p,
    {
        p -= 1;
    }
    proof {
        lemma_insert_position(before, xv, p as int);
    }
    sorted.insert(p, x);
    proof {
        assert(networks_view(sorted@) =~= before.insert(p as int, xv));
    }
}

impl NetConnect {
    /// Reads the terse listing `name:signal` of the networks in range.
    pub fn make_wifi_list(stdout: &str) -> (list: Vec<(String, u8)>)
        ensures
            networks_view(list@) == wifi_list_of(stdout@),
    {
        let chars = to_chars(stdout);
        let all = split_lines(chars.as_slice());
        let ghost views = lines(stdout@);
        let mut list: Vec<(String, u8)> = Vec::new();
        let mut i: usize = 0;
        proof {
            assert(networks_view(list@) =~= Seq::empty());
        }
        while i < all.len()
            invariant
                i <= all.len(),
                views == slice_views(all@),
                networks_view(list@) == sort_by_signal(networks_of_lines(views.take(i as int))),
            decreases all.len() - i,
        {
            proof {
                assert(views.take(i + 1).drop_last() =~= views.take(i as int));
                assert(views.take(i + 1).last() == all@[i as int]@);
                let head = networks_of_lines(views.take(i as int));
                match network_of_line(views[i as int]) {
                    Some(n) => {
                        assert(head.push(n).drop_last() =~= head);
                    },
                    None => {},
                }
            }
            match parse_network(all[i]) {
                Some(network) => {
                    insert_network(&mut list, network);
                },
                None => {},
            }
            i += 1;
        }
        proof {
            assert(views.take(all.len() as int) =~= views);
        }
        if list.len() > MAX_NETWORKS {
            list.truncate(MAX_NETWORKS);
            proof {
                let sorted = sort_by_signal(networks_of_lines(views));
                assert(networks_view(list@) =~= sorted.take(MAX_NETWORKS as int));
            }
        }
        list
    }
}

impl NetConnect {
    /// Reads the list of networks out of the outcome of a run of the terse
    /// listing.  A run that failed gives `None`, and the pane keeps the
    /// list it has.
    pub fn wifi_list_of_run(result: &CommandResult) -> (list: Option<Vec<(String, u8)>>)
        ensures
            networks_option_view(list) == wifi_list_of_result(result@),
    {
        match result {
            CommandResult::Finished { success, stdout, stderr } => {
                if *success {
                    Some(NetConnect::make_wifi_list(stdout.as_str()))
                } else {
                    None
                }
            },
            CommandResult::Failed { error } => None,
        }
    }
}

// ---------------------------------------------------------------------------
// The connected network
// ---------------------------------------------------------------------------

/// The name in one line of the listing `active:name`, where the line is
/// that of the active network: what stands behind the first colon of a line
/// that begins with `yes:`.
pub open spec fn active_name_of_line(line: Seq<char>) -> Option<Seq<char>> {
    if before(line, ':') == "yes"@ {
        after(line, ':')
    } else {
        None
    }
}

/// The name in the first line that is that of an active network; empty
/// where there is no such line.
pub open spec fn first_active_name(lines: Seq<Seq<char>>) -> Seq<char>
    decreases lines.len(),
{
    if lines.len() == 0 {
        Seq::empty()
    } else {
        match active_name_of_line(lines[0]) {
            Some(name) => name,
            None => first_active_name(lines.drop_first()),
        }
    }
}

/// The name of the connected network that the outcome of the listing
/// `active:name` tells of: empty where the command failed.
pub open spec fn connected_ssid_of(result: CommandResultView) -> Seq<char> {
    match result.output() {
        Some(stdout) => first_active_name(lines(stdout)),
        None => Seq::empty(),
    }
}

impl NetConnect {
    /// Reads the name of the connected network out of the listing
    /// `active:name`.
    pub fn get_connected_ssid(result: &CommandResult) -> (name: String)
        ensures
            name@ == connected_ssid_of(result@),
    {
        match result {
            CommandResult::Finished { success, stdout, stderr } => {
                if !*success {
                    return String::new();
                }
                let chars = to_chars(stdout.as_str());
                let all = split_lines(chars.as_slice());
                let ghost views = lines(stdout@);
                let mut i: usize = 0;
                proof {
                    assert(views.subrange(0, views.len() as int) =~= views);
                }
                while i < all.len()
                    invariant
                        i <= all.len(),
                        views == slice_views(all@),
                        connected_ssid_of(result@) == first_active_name(views),
                        first_active_name(views) == first_active_name(
                            views.subrange(i as int, views.len() as int),
                        ),
                    decreases all.len() - i,
                {
                    let line = all[i];
                    let ghost rest = views.subrange(i as int, views.len() as int);
                    proof {
                        assert(rest[0] == line@);
                        assert(rest.drop_first() =~= views.subrange(i + 1, views.len() as int));
                    }
                    if chars_eq_str(before_char(line, ':'), "yes") {
                        match after_char(line, ':') {
                            Some(name) => {
                                proof {
                                    assert(active_name_of_line(rest[0]) == Some(name@));
                                    assert(first_active_name(rest) == name@);
                                }
                                return from_chars(name);
                            },
                            None => {},
                        }
                    }
                    i += 1;
                }
                String::new()
            },
            CommandResult::Failed { error } => String::new(),
        }
    }
}

// ---------------------------------------------------------------------------
// The connection details
// ---------------------------------------------------------------------------

/// The rule that is drawn under a heading and under each value.
pub open spec fn rule() -> Seq<char> {
    repeat('\u{23bd}', 32)
}

/// Whether `line` opens the block of a device.
pub open spec fn is_device_line(line: Seq<char>) -> bool {
    "GENERAL.DEVICE"@.is_prefix_of(line)
}

/// What stands behind the first colon of `line`, trimmed; empty where the
/// line has no colon.
pub open spec fn value_of_line(line: Seq<char>) -> Seq<char> {
    match after(line, ':') {
        Some(rest) => trim(rest),
        None => Seq::empty(),
    }
}

/// The value of the last line of `block` that begins with `key`; empty
/// where no line does.
pub open spec fn last_field(block: Seq<Seq<char>>, key: Seq<char>) -> Seq<char>
    decreases block.len(),
{
    if block.len() == 0 {
        Seq::empty()
    } else if key.is_prefix_of(block.last()) {
        value_of_line(block.last())
    } else {
        last_field(block.drop_last(), key)
    }
}

/// What one line adds to the details under the heading `label`: where the
/// line begins with `field` and has a colon, the heading, the value and a
/// rule.
pub open spec fn field_entry(line: Seq<char>, field: Seq<char>, label: Seq<char>) -> Seq<
    Seq<char>,
> {
    if field.is_prefix_of(line) && after(line, ':') is Some {
        seq![label + " :  "@, value_of_line(line), rule()]
    } else {
        Seq::empty()
    }
}

/// What the lines of `block` add under the heading `label`, line by line.
pub open spec fn field_lines(block: Seq<Seq<char>>, field: Seq<char>, label: Seq<char>) -> Seq<
    Seq<char>,
>
    decreases block.len(),
{
    if block.len() == 0 {
        Seq::empty()
    } else {
        field_lines(block.drop_last(), field, label) + field_entry(block.last(), field, label)
    }
}

/// The title of a device: `===> name (type)`.
pub open spec fn device_title(name: Seq<char>, kind: Seq<char>) -> Seq<char> {
    "===> "@ + name + " ("@ + kind + ")"@
}

/// The details of one device.  Only wireless and wired devices are shown:
/// a title and a rule, then the device, its type, the name of its
/// connection, its addresses, its gateway and its name servers, then an
/// empty line.
pub open spec fn device_lines(block: Seq<Seq<char>>) -> Seq<Seq<char>> {
    let kind = last_field(block, "GENERAL.TYPE:"@);
    let name = last_field(block, "GENERAL.DEVICE:"@);
    if kind == "wifi"@ || kind == "ethernet"@ {
        seq![device_title(name, kind), rule()] + field_lines(
            block,
            "GENERAL.DEVICE"@,
            "Device"@,
        ) + field_lines(block, "GENERAL.TYPE"@, "Type"@) + field_lines(
            block,
            "GENERAL.CONNECTION"@,
            "Name"@,
        ) + field_lines(block, "IP4.ADDRESS"@, "IPv4"@) + field_lines(
            block,
            "IP4.GATEWAY"@,
            "IPv4 Gateway"@,
        ) + field_lines(block, "IP4.DNS"@, "DNS"@) + seq![Seq::<char>::empty()]
    } else {
        Seq::empty()
    }
}

/// Where the block that holds the line `from - 1` ends: at the next line
/// from `from` on that opens a device, or at the end of the lines.
pub open spec fn block_end(lines: Seq<Seq<char>>, from: int) -> int
    decreases lines.len() - from,
{
    if from >= lines.len() || is_device_line(lines[from]) {
        from
    } else {
        block_end(lines, from + 1)
    }
}

/// The details of the devices whose blocks begin at the line `start` and
/// behind it, closed by two empty lines.
pub open spec fn details_from(lines: Seq<Seq<char>>, start: int) -> Seq<Seq<char>>
    decreases lines.len() - start,
{
    let end = block_end(lines, start + 1);
    if 0 <= start < lines.len() && start < end <= lines.len() {
        device_lines(lines.subrange(start, end)) + details_from(lines, end)
    } else {
        seq![Seq::<char>::empty(), Seq::<char>::empty()]
    }
}

/// The lines of the details panel for the outcome of the device report:
/// the details of each device, or one line that says that they could not
/// be had.
pub open spec fn connection_info_of(result: CommandResultView) -> Seq<Seq<char>> {
    match result.output() {
        Some(stdout) => details_from(lines(stdout), 0),
        None => seq!["Failed to get connection info."@],
    }
}

/// What stands behind the first colon of `line`, trimmed.
fn line_value(line: &[char]) -> (value: String)
    ensures
        value@ == value_of_line(line@),
{
    match after_char(line, ':') {
        Some(rest) => from_chars(trim_chars(rest)),
        None => String::new(),
    }
}

/// The value of the last line of `block` that begins with `key`.
fn find_last_field(block: &[&[char]], key: &str) -> (value: String)
    ensures
        value@ == last_field(slice_views(block@), key@),
{
    let ghost views = slice_views(block@);
    let mut value = String::new();
    let mut i: usize = 0;
    while i < block.len()
        invariant
            i <= block.len(),
            views == slice_views(block@),
            value@ == last_field(views.take(i as int), key@),
        decreases block.len() - i,
    {
        proof {
            assert(views.take(i + 1).drop_last() =~= views.take(i as int));
            assert(views.take(i + 1).last() == block@[i as int]@);
        }
        if starts_with_str(block[i], key) {
            value = line_value(block[i]);
        }
        i += 1;
    }
    proof {
        assert(views.take(block.len() as int) =~= views);
    }
    value
}

/// The rule that is drawn under a heading and under each value.
fn make_rule() -> (r: String)
    ensures
        r@ == rule(),
{
    repeat_char('\u{23bd}', 32)
}

/// Appends what the lines of `block` add under the heading `label`.
fn push_field_lines(out: &mut Vec<String>, block: &[&[char]], field: &str, label: &str)
    ensures
        strings_view(final(out)@) == strings_view(old(out)@) + field_lines(
            slice_views(block@),
            field@,
            label@,
        ),
{
    let ghost views = slice_views(block@);
    let ghost start = strings_view(out@);
    let mut i: usize = 0;
    while i < block.len()
        invariant
            i <= block.len(),
            views == slice_views(block@),
            strings_view(out@) == start + field_lines(views.take(i as int), field@, label@),
        decreases block.len() - i,
    {
        proof {
            assert(views.take(i + 1).drop_last() =~= views.take(i as int));
            assert(views.take(i + 1).last() == block@[i as int]@);
        }
        let line = block[i];
        if starts_with_str(line, field) {
            match after_char(line, ':') {
                Some(rest) => {
                    let mut heading = String::new();
                    push_text(&mut heading, label);
                    push_text(&mut heading, " :  ");
                    let value = from_chars(trim_chars(rest));
                    let ruler = make_rule();
                    let ghost before = out@;
                    out.push(heading);
                    out.push(value);
                    out.push(ruler);
                    proof {
                        lemma_strings_view_push(before, heading);
                        lemma_strings_view_push(before.push(heading), value);
                        lemma_strings_view_push(before.push(heading).push(value), ruler);
                        assert(strings_view(out@) =~= strings_view(before) + field_entry(
                            line@,
                            field@,
                            label@,
                        ));
                    }
                },
                None => {},
            }
        }
        i += 1;
    }
    proof {
        assert(views.take(block.len() as int) =~= views);
    }
}

/// Appends the details of one device.
fn push_device_lines(out: &mut Vec<String>, block: &[&[char]])
    ensures
        strings_view(final(out)@) == strings_view(old(out)@) + device_lines(slice_views(block@)),
{
    let kind = find_last_field(block, "GENERAL.TYPE:");
    let name = find_last_field(block, "GENERAL.DEVICE:");
    let kind_chars = to_chars(kind.as_str());
    if !chars_eq_str(kind_chars.as_slice(), "wifi") && !chars_eq_str(
        kind_chars.as_slice(),
        "ethernet",
    ) {
        return ;
    }
    let name_chars = to_chars(name.as_str());
    let mut title = String::new();
    push_text(&mut title, "===> ");
    push_chars(&mut title, name_chars.as_slice());
    push_text(&mut title, " (");
    push_chars(&mut title, kind_chars.as_slice());
    push_text(&mut title, ")");
    let ruler = make_rule();
    let ghost before = out@;
    out.push(title);
    out.push(ruler);
    proof {
        lemma_strings_view_push(before, title);
        lemma_strings_view_push(before.push(title), ruler);
    }
    push_field_lines(out, block, "GENERAL.DEVICE", "Device");
    push_field_lines(out, block, "GENERAL.TYPE", "Type");
    push_field_lines(out, block, "GENERAL.CONNECTION", "Name");
    push_field_lines(out, block, "IP4.ADDRESS", "IPv4");
    push_field_lines(out, block, "IP4.GATEWAY", "IPv4 Gateway");
    push_field_lines(out, block, "IP4.DNS", "DNS");
    let ghost filled = out@;
    let blank = String::new();
    out.push(blank);
    proof {
        lemma_strings_view_push(filled, blank);
        assert(strings_view(out@) =~= strings_view(before) + device_lines(slice_views(block@)));
    }
}

impl NetConnect {
    /// Reads the device report and lays out the lines of the details panel.
    pub fn get_connection_info(result: &CommandResult) -> (info: Vec<String>)
        ensures
            strings_view(info@) == connection_info_of(result@),
    {
        let mut out: Vec<String> = Vec::new();
        let stdout = match result {
            CommandResult::Finished { success, stdout, stderr } => if *success {
                Some(stdout)
            } else {
                None
            },
            CommandResult::Failed { error } => None,
        };
        match stdout {
            None => {
                let mut message = String::new();
                push_text(&mut message, "Failed to get connection info.");
                out.push(message);
                proof {
                    assert(strings_view(out@) =~= seq!["Failed to get connection info."@]);
                }
                out
            },
            Some(text) => {
                let chars = to_chars(text.as_str());
                let all = split_lines(chars.as_slice());
                let ghost views = lines(text@);
                let n = all.len();
                let mut start: usize = 0;
                proof {
                    assert(strings_view(out@) =~= Seq::empty());
                }
                while start < n
                    invariant
                        start <= n,
                        n == all.len(),
                        views == slice_views(all@),
                        details_from(views, 0) == strings_view(out@) + details_from(
                            views,
                            start as int,
                        ),
                    decreases n - start,
                {
                    let mut end = start + 1;
                    while end < n && !starts_with_str(all[end], "GENERAL.DEVICE")
                        invariant
                            start < end <= n,
                            n == all.len(),
                            views == slice_views(all@),
                            block_end(views, start + 1) == block_end(views, end as int),
                        decreases n - end,
                    {
                        proof {
                            assert(views[end as int] == all@[end as int]@);
                        }
                        end += 1;
                    }
                    proof {
                        if end < n {
                            assert(views[end as int] == all@[end as int]@);
                        }
                        assert(block_end(views, start + 1) == end);
                    }
                    let block = &all.as_slice()[start..end];
                    proof {
                        assert(slice_views(block@) =~= views.subrange(start as int, end as int));
                    }
                    push_device_lines(&mut out, block);
                    start = end;
                }
                let ghost filled = out@;
                let blank = String::new();
                let blank2 = String::new();
                out.push(blank);
                out.push(blank2);
                proof {
                    lemma_strings_view_push(filled, blank);
                    lemma_strings_view_push(filled.push(blank), blank2);
                    assert(strings_view(out@) =~= strings_view(filled) + seq![
                        Seq::<char>::empty(),
                        Seq::<char>::empty(),
                    ]);
                }
                out
            },
        }
    }
}

// ---------------------------------------------------------------------------
// Connecting
// ---------------------------------------------------------------------------

/// The arguments with which the tool is asked to join `ssid`.
pub open spec fn connect_arguments_of(ssid: Seq<char>, password: Seq<char>) -> Seq<Seq<char>> {
    seq!["device"@, "wifi"@, "connect"@, ssid, "password"@, password]
}

/// What is said of an attempt to join `ssid`: that it succeeded, or why it
/// failed, with what the tool wrote to its standard error, trimmed, or
/// with the reason for which the tool could not be run.
pub open spec fn connect_outcome_of(ssid: Seq<char>, result: CommandResultView) -> Seq<char> {
    match result {
        CommandResultView::Finished { success, stdout, stderr } => if success {
            "Connected to "@ + ssid
        } else {
            "Failed to connect to "@ + ssid + ": "@ + trim(stderr)
        },
        CommandResultView::Failed { error } => "Failed to execute nmcli: "@ + error,
    }
}

impl NetConnect {
    /// The arguments with which the tool is asked to join `ssid`; `None`
    /// where the password is empty, in which case nothing is to be run.
    pub fn connect_arguments(ssid: &str, password: &str) -> (args: Option<Vec<String>>)
        ensures
            password@.len() == 0 ==> args is None,
            password@.len() > 0 ==> args is Some && strings_view(args->0@) == connect_arguments_of(
                ssid@,
                password@,
            ),
    {
        if crate::text::char_count(password) == 0 {
            return None;
        }
        let mut args: Vec<String> = Vec::new();
        args.push(String::from_str("device"));
        args.push(String::from_str("wifi"));
        args.push(String::from_str("connect"));
        args.push(String::from_str(ssid));
        args.push(String::from_str("password"));
        args.push(String::from_str(password));
        proof {
            assert(strings_view(args@) =~= connect_arguments_of(ssid@, password@));
        }
        Some(args)
    }

    /// What is said of an attempt to join `ssid` that ended in `result`.
    pub fn connect_outcome(ssid: &str, result: &CommandResult) -> (text: String)
        ensures
            text@ == connect_outcome_of(ssid@, result@),
    {
        let mut text = String::new();
        match result {
            CommandResult::Finished { success, stdout, stderr } => {
                if *success {
                    push_text(&mut text, "Connected to ");
                    push_text(&mut text, ssid);
                    proof {
                        assert(text@ =~= "Connected to "@ + ssid@);
                    }
                } else {
                    let error = to_chars(stderr.as_str());
                    push_text(&mut text, "Failed to connect to ");
                    push_text(&mut text, ssid);
                    push_text(&mut text, ": ");
                    push_chars(&mut text, trim_chars(error.as_slice()));
                    proof {
                        assert(text@ =~= "Failed to connect to "@ + ssid@ + ": "@ + trim(stderr@));
                    }
                }
            },
            CommandResult::Failed { error } => {
                push_text(&mut text, "Failed to execute nmcli: ");
                push_text(&mut text, error.as_str());
                proof {
                    assert(text@ =~= "Failed to execute nmcli: "@ + error@);
                }
            },
        }
        text
    }
}

} // verus!

//! The DNS settings of macOS network services, read and written with `networksetup`:
//! what to run and how to read what it prints.
use vstd::prelude::*;

use crate::app::AppPaths;
use crate::text::{
    char_views, has_char, join_path, not_starting_with, owned, string_from_chars, trimmed_lines,
    trimmed_lines_of, views, contains_seq, chars_of, chars_contain, clone_strings,
};

verus! {

/// Talks to the network configuration of macOS, or to a file standing in for it.
pub struct MacOsNetworkManager {
    pub paths: AppPaths,
}

/// A line of `networksetup -listallnetworkservices` that names a service: not empty and not
/// starting with `*` (a disabled service).
pub open spec fn names_service(line: Seq<char>) -> bool {
    line.len() > 0 && not_starting_with(line, '*')
}

/// The services that `networksetup -listallnetworkservices` lists: every line after the
/// first, trimmed, that names a service.
pub open spec fn spec_parse_service_list(stdout: Seq<char>) -> Seq<Seq<char>> {
    let all = trimmed_lines(stdout);
    let after_header = if all.len() == 0 { all } else { all.skip(1) };
    after_header.filter(service_lines())
}

pub open spec fn service_lines() -> spec_fn(Seq<char>) -> bool {
    |l: Seq<char>| names_service(l)
}

pub open spec fn no_servers_notice() -> Seq<char> {
    "There aren't any DNS Servers set"@
}

/// The servers that `networksetup -getdnsservers` prints: none when it says that none are
/// set, otherwise every non-empty trimmed line.
pub open spec fn spec_parse_dns_servers(stdout: Seq<char>) -> Seq<Seq<char>> {
    if contains_seq(stdout, no_servers_notice()) {
        Seq::empty()
    } else {
        trimmed_lines(stdout).filter(|l: Seq<char>| l.len() > 0)
    }
}

/// The arguments of `networksetup` that set the servers of `service`: `Empty` clears them.
pub open spec fn spec_set_dns_args(service: Seq<char>, servers: Seq<Seq<char>>) -> Seq<Seq<char>> {
    seq!["-setdnsservers"@, service] + if servers.len() == 0 { seq!["Empty"@] } else { servers }
}

pub open spec fn local_dns_only(servers: Seq<Seq<char>>) -> bool {
    servers == seq!["127.0.0.1"@]
}

/// What the simulated network records for `servers`: a wrong server when a mismatch on restore
/// is simulated and the servers are not the local resolver, the servers otherwise.
pub open spec fn spec_applied_servers(servers: Seq<Seq<char>>, simulate_restore_mismatch: bool) -> Seq<Seq<char>> {
    if simulate_restore_mismatch && !local_dns_only(servers) {
        seq!["203.0.113.53"@]
    } else {
        servers
    }
}

impl MacOsNetworkManager {
    pub fn new(paths: AppPaths) -> (r: MacOsNetworkManager)
        ensures
            r.paths == paths,
    {
        MacOsNetworkManager { paths }
    }

    /// The file that stands in for the network configuration when the platform is faked.
    pub fn fake_file(&self) -> (r: String)
        ensures
            r@ == crate::text::spec_join_path(self.paths.state_dir@, "fake-network.json"@),
    {
        join_path(self.paths.state_dir.as_str(), "fake-network.json")
    }
}

/// A service has custom DNS when it has servers of its own.
pub fn has_custom_dns(servers: &Vec<String>) -> (b: bool)
    ensures
        b == (servers@.len() > 0),
{
    servers.len() > 0
}

/// Reads the output of `networksetup -listallnetworkservices`.
pub fn parse_service_list(stdout: &str) -> (r: Vec<String>)
    ensures
        views(r@) == spec_parse_service_list(stdout@),
{
    let lines = trimmed_lines_of(stdout);
    let ghost all = char_views(lines@);
    let ghost tail = if all.len() == 0 { all } else { all.skip(1) };
    let mut out: Vec<String> = Vec::new();
    let mut i: usize = 1;
    proof {
        assert(tail.take(0) =~= Seq::<Seq<char>>::empty());
        reveal(Seq::filter);
    }
    while i < lines.len()
        invariant
            all == char_views(lines@),
            all == trimmed_lines(stdout@),
            tail == (if all.len() == 0 { all } else { all.skip(1) }),
            1 <= i,
            i <= lines.len() || (lines.len() == 0 && i == 1),
            views(out@) == tail.take(i - 1).filter(service_lines()),
        decreases lines.len() - i,
    {
        let line = &lines[i];
        proof {
            assert(tail.take(i as int).drop_last() =~= tail.take(i - 1));
            assert(tail.take(i as int).last() == line@);
            reveal(Seq::filter);
        }
        if line.len() > 0 && line[0] != '*' {
            out.push(string_from_chars(line));
            assert(views(out@) =~= views(out@).drop_last().push(line@));
        }
        i += 1;
    }
    proof {
        if lines.len() > 0 {
            assert(tail.take(lines.len() - 1) =~= tail);
        } else {
            assert(tail.take(0) =~= tail);
        }

    }
    out
}

/// Reads the output of `networksetup -getdnsservers`.
pub fn parse_dns_servers(stdout: &str) -> (r: Vec<String>)
    ensures
        views(r@) == spec_parse_dns_servers(stdout@),
{
    let text = chars_of(stdout);
    let notice = chars_of("There aren't any DNS Servers set");
    if chars_contain(&text, &notice) {
        return Vec::new();
    }
    let lines = trimmed_lines_of(stdout);
    let ghost all = char_views(lines@);
    let mut out: Vec<String> = Vec::new();
    proof {
        assert(all.take(0) =~= Seq::<Seq<char>>::empty());
        reveal(Seq::filter);
    }
    for i in 0..lines.len()
        invariant
            all == char_views(lines@),
            all == trimmed_lines(stdout@),
            views(out@) == all.take(i as int).filter(|l: Seq<char>| l.len() > 0),
    {
        let line = &lines[i];
        proof {
            assert(all.take(i + 1).drop_last() =~= all.take(i as int));
            assert(all.take(i + 1).last() == line@);
            reveal(Seq::filter);
        }
        if line.len() > 0 {
            out.push(string_from_chars(line));
            assert(views(out@) =~= views(out@).drop_last().push(line@));
        }
    }
    assert(all.take(lines.len() as int) =~= all);
    out
}

/// The arguments for `networksetup` that set the DNS servers of `service`.
pub fn set_dns_args(service: &str, servers: &Vec<String>) -> (r: Vec<String>)
    ensures
        views(r@) == spec_set_dns_args(service@, views(servers@)),
{
    let mut args: Vec<String> = Vec::new();
    args.push(owned("-setdnsservers"));
    args.push(owned(service));
    if servers.len() == 0 {
        args.push(owned("Empty"));
    } else {
        let mut i: usize = 0;
        while i < servers.len()
            invariant
                i <= servers.len(),
                views(args@) == seq!["-setdnsservers"@, service@] + views(servers@).take(i as int),
            decreases servers.len() - i,
        {
            let ghost before = views(args@);
            args.push(servers[i].clone());
            assert(views(servers@).take(i + 1) =~= views(servers@).take(i as int).push(servers@[i as int]@));
            assert(views(args@) =~= before.push(servers@[i as int]@));
            assert(seq!["-setdnsservers"@, service@] + views(servers@).take(i + 1) =~= before.push(servers@[i as int]@));
            i += 1;
        }
        assert(views(servers@).take(servers.len() as int) =~= views(servers@));
    }
    assert(views(args@) =~= spec_set_dns_args(service@, views(servers@)));
    args
}

/// The servers that the simulated network records when `servers` are set.
pub fn applied_servers(servers: &Vec<String>, simulate_restore_mismatch: bool) -> (r: Vec<String>)
    ensures
        views(r@) == spec_applied_servers(views(servers@), simulate_restore_mismatch),
{
    let local = servers.len() == 1 && crate::text::str_eq(servers[0].as_str(), "127.0.0.1");
    proof {
        if servers.len() == 1 {
            assert(views(servers@) =~= seq![servers@[0]@]);
        }
        if local_dns_only(views(servers@)) {
            assert(views(servers@).len() == 1);
            assert(views(servers@)[0] == servers@[0]@);
        }
    }
    if simulate_restore_mismatch && !local {
        let mut r: Vec<String> = Vec::new();
        r.push(owned("203.0.113.53"));
        assert(views(r@) =~= seq!["203.0.113.53"@]);
        r
    } else {
        clone_strings(servers)
    }
}

} // verus!

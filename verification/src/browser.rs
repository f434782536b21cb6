//! The command line of the headless browser used for signing.

use vstd::prelude::*;

use crate::text::{concat, dec_digits, decimal, push_all, strings_view};

verus! {

/// Where the browser is and how it is started.
#[derive(Debug, Clone, PartialEq, Eq)]
pub struct BrowserConfig {
    pub edge_path: String,
    pub user_data_dir: String,
    pub extra_args: Vec<String>,
    pub cdp_port: u16,
}

/// The arguments every browser gets.
pub open spec fn spec_default_edge_args() -> Seq<Seq<char>> {
    seq![
        "--headless=new"@,
        "--disable-blink-features=AutomationControlled"@,
        "--no-first-run"@,
        "--no-default-browser-check"@,
        "--disable-background-timer-throttling"@,
        "--disable-backgrounding-occluded-windows"@,
        "--disable-renderer-backgrounding"@,
        "--window-size=1920,1080"@,
    ]
}

/// The arguments every browser gets: headless, without automation marks,
/// without first-run prompts or background throttling, at 1920x1080.
pub fn default_edge_args() -> (r: Vec<String>)
    ensures
        strings_view(r@) == spec_default_edge_args(),
{
    let mut v: Vec<String> = Vec::new();
    v.push("--headless=new".to_owned());
    v.push("--disable-blink-features=AutomationControlled".to_owned());
    v.push("--no-first-run".to_owned());
    v.push("--no-default-browser-check".to_owned());
    v.push("--disable-background-timer-throttling".to_owned());
    v.push("--disable-backgrounding-occluded-windows".to_owned());
    v.push("--disable-renderer-backgrounding".to_owned());
    v.push("--window-size=1920,1080".to_owned());
    assert(strings_view(v@) =~= spec_default_edge_args());
    v
}

impl BrowserConfig {
    /// The full argument list: the defaults, the debugging port, the
    /// profile directory, the extra arguments, and a blank start page.
    pub fn build_args(&self) -> (r: Vec<String>)
        ensures
            strings_view(r@) == spec_default_edge_args() + seq![
                "--remote-debugging-port="@ + dec_digits(self.cdp_port as u64),
                "--user-data-dir="@ + self.user_data_dir@,
            ] + strings_view(self.extra_args@) + seq!["about:blank"@],
    {
        let mut args = default_edge_args();
        let port = decimal(self.cdp_port as u64);
        let ghost a0 = strings_view(args@);
        args.push(concat("--remote-debugging-port=", port.as_str()));
        args.push(concat("--user-data-dir=", self.user_data_dir.as_str()));
        let ghost a1 = strings_view(args@);
        assert(a1 =~= a0 + seq![
            "--remote-debugging-port="@ + dec_digits(self.cdp_port as u64),
            "--user-data-dir="@ + self.user_data_dir@,
        ]);
        push_all(&mut args, self.extra_args.as_slice());
        let ghost a2 = strings_view(args@);
        args.push("about:blank".to_owned());
        assert(strings_view(args@) =~= a2 + seq!["about:blank"@]);
        args
    }
}

} // verus!

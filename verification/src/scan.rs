//! Reading a command's whole option list, left to right.

use vstd::prelude::*;
use vstd::string::*;
use crate::decimal::numeral_value;
use crate::fail::{
    extra_argument_text, invalid_value_text, needs_value_text, unknown_flag,
    unknown_option_text, Fail, FailView,
};
use crate::options::{
    default_settings, initial_settings, is_flag, is_flag_text, label, need_value, option_label,
    option_named, parse_count, parse_number, recognise, take_positional, Kind, Opt, Settings,
};

verus! {

/// The texts of a list of arguments.
pub open spec fn texts(args: Seq<String>) -> Seq<Seq<char>> {
    args.map_values(|s: String| s@)
}

/// What has been read so far.
pub struct ScanState {
    pub settings: Settings,
    /// The file argument, if one was given.
    pub file: Option<Seq<char>>,
    /// `--field` values, in order.
    pub fields: Seq<Seq<char>>,
    /// `--min-rate` values, in order.
    pub rates: Seq<Seq<char>>,
}

/// What a scan ends with: the state reached and the failure that stopped it, if any.
pub struct ScanEnd {
    pub state: ScanState,
    pub failure: Option<FailView>,
}

/// Nothing read yet.
pub open spec fn initial_state() -> ScanState {
    ScanState { settings: default_settings(), file: None, fields: seq![], rates: seq![] }
}

/// The state after option `o` took the value `text`, or the failure for a bad value.
pub open spec fn with_value(o: Opt, text: Seq<char>, st: ScanState) -> Result<ScanState, FailView> {
    let bad = FailView::Usage(invalid_value_text(option_label(o), text));
    let s = st.settings;
    let count = numeral_value(text, usize::MAX as nat);
    match o {
        Opt::Seed => match numeral_value(text, u64::MAX as nat) {
            Some(v) => Ok(ScanState { settings: Settings { seed: Some(v as u64), ..s }, ..st }),
            None => Err(bad),
        },
        Opt::Field => Ok(ScanState { fields: st.fields.push(text), ..st }),
        Opt::MinRate => Ok(ScanState { rates: st.rates.push(text), ..st }),
        Opt::Json => Ok(st),
        _ => match count {
            None => Err(bad),
            Some(v) => {
                let n = v as usize;
                Ok(
                    ScanState {
                        settings: match o {
                            Opt::Lines => Settings { count: n, ..s },
                            Opt::Top => Settings { top: n, ..s },
                            Opt::MaxErrors => Settings { max_errors: n, ..s },
                            Opt::MinCount => Settings { min_count: n, ..s },
                            _ => Settings { depth: n, ..s },
                        },
                        ..st
                    },
                )
            },
        },
    }
}

/// Reads `args[i..]` for the command `kind`, starting from `st`. Every argument
/// is an option of the command, followed by its value unless it is `--json`, or
/// the one file argument; the first argument that is neither stops the scan.
pub open spec fn scan_from(kind: Kind, args: Seq<Seq<char>>, i: int, st: ScanState) -> ScanEnd
    decreases args.len() - i,
{
    if i < 0 || i >= args.len() {
        ScanEnd { state: st, failure: None }
    } else {
        let arg = args[i];
        match option_named(kind, arg) {
            Some(o) => if o is Json {
                scan_from(
                    kind,
                    args,
                    i + 1,
                    ScanState { settings: Settings { json: true, ..st.settings }, ..st },
                )
            } else if i + 1 >= args.len() {
                ScanEnd {
                    state: st,
                    failure: Some(FailView::Usage(needs_value_text(option_label(o)))),
                }
            } else {
                match with_value(o, args[i + 1], st) {
                    Ok(next) => scan_from(kind, args, i + 2, next),
                    Err(f) => ScanEnd { state: st, failure: Some(f) },
                }
            },
            None => if is_flag_text(arg) {
                ScanEnd { state: st, failure: Some(FailView::Usage(unknown_option_text(arg))) }
            } else if st.file is Some {
                ScanEnd { state: st, failure: Some(FailView::Usage(extra_argument_text(arg))) }
            } else {
                scan_from(kind, args, i + 1, ScanState { file: Some(arg), ..st })
            },
        }
    }
}

/// The result of reading an option list.
pub struct Scan {
    pub settings: Settings,
    pub file: Option<String>,
    pub fields: Vec<String>,
    pub rates: Vec<String>,
    /// The failure that stopped the scan; the other parts hold what was read before it.
    pub failure: Option<Fail>,
}

impl Scan {
    pub open spec fn state(&self) -> ScanState {
        ScanState {
            settings: self.settings,
            file: match self.file {
                Some(f) => Some(f@),
                None => None,
            },
            fields: texts(self.fields@),
            rates: texts(self.rates@),
        }
    }
}

impl View for Scan {
    type V = ScanEnd;

    open spec fn view(&self) -> ScanEnd {
        ScanEnd {
            state: self.state(),
            failure: match self.failure {
                Some(f) => Some(f@),
                None => None,
            },
        }
    }
}

/// Applies the value of option `o` to `scan`.
fn apply_value(o: Opt, text: &String, scan: &mut Scan) -> (r: Result<(), Fail>)
    requires
        !(o is Json),
        old(scan).failure is None,
    ensures
        final(scan).failure is None,
        match with_value(o, text@, old(scan).state()) {
            Ok(next) => r is Ok && final(scan).state() == next,
            Err(f) => final(scan).state() == old(scan).state() && (r matches Err(e) && e@ == f),
        },
{
    let ghost before = scan.state();
    match o {
        Opt::Seed => {
            let v = parse_number(text.as_str(), label(o))?;
            scan.settings.seed = Some(v);
        },
        Opt::Field => {
            scan.fields.push(text.clone());
            assert(texts(scan.fields@) =~= before.fields.push(text@));
        },
        Opt::MinRate => {
            scan.rates.push(text.clone());
            assert(texts(scan.rates@) =~= before.rates.push(text@));
        },
        _ => {
            let n = parse_count(text.as_str(), label(o))?;
            match o {
                Opt::Lines => scan.settings.count = n,
                Opt::Top => scan.settings.top = n,
                Opt::MaxErrors => scan.settings.max_errors = n,
                Opt::MinCount => scan.settings.min_count = n,
                _ => scan.settings.depth = n,
            }
        },
    }
    Ok(())
}

/// Reads the options of the command `kind` from `args[start..]`.
pub fn scan_options(kind: Kind, args: &Vec<String>, start: usize) -> (s: Scan)
    requires
        start <= args.len(),
    ensures
        s@ == scan_from(kind, texts(args@), start as int, initial_state()),
{
    let ghost t = texts(args@);
    let mut scan = Scan {
        settings: initial_settings(),
        file: None,
        fields: Vec::new(),
        rates: Vec::new(),
        failure: None,
    };
    assert(texts(scan.fields@) =~= Seq::<Seq<char>>::empty());
    assert(texts(scan.rates@) =~= Seq::<Seq<char>>::empty());
    assert(scan.state() == initial_state());
    let mut i = start;
    while i < args.len()
        invariant
            start <= i <= args.len(),
            t == texts(args@),
            scan.failure is None,
            scan_from(kind, t, start as int, initial_state()) == scan_from(
                kind,
                t,
                i as int,
                scan.state(),
            ),
        decreases args.len() - i,
    {
        let arg = args[i].as_str();
        assert(t[i as int] == arg@);
        match recognise(kind, arg) {
            Some(o) => {
                if let Opt::Json = o {
                    scan.settings.json = true;
                    i = i + 1;
                } else {
                    let next = if i + 1 < args.len() {
                        Some(&args[i + 1])
                    } else {
                        None
                    };
                    let value = match need_value(next, label(o)) {
                        Ok(v) => v,
                        Err(f) => {
                            scan.failure = Some(f);
                            return scan;
                        },
                    };
                    assert(t[i + 1] == value@);
                    match apply_value(o, value, &mut scan) {
                        Ok(()) => {},
                        Err(f) => {
                            scan.failure = Some(f);
                            return scan;
                        },
                    }
                    i = i + 2;
                }
            },
            None => {
                if is_flag(arg) {
                    scan.failure = Some(unknown_flag(arg));
                    return scan;
                }
                match take_positional(&mut scan.file, arg) {
                    Ok(()) => {},
                    Err(f) => {
                        scan.failure = Some(f);
                        return scan;
                    },
                }
                i = i + 1;
            },
        }
    }
    scan
}

} // verus!

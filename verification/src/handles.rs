//! Handle lists returned by the HII database: de-duplicated and ordered
//! before the tools walk them, and the choice of which forms to open.

use std::collections::BTreeSet;
use vstd::prelude::*;
use vstd::std_specs::iter::IteratorSpec;
use vstd::std_specs::cmp::OrdSpec;

use crate::decimal::{decimal_value, parse_usize};
use crate::error::{Error, Result};
use crate::text::{decode_failure, decoded_text, ucs2_decode};

verus! {

broadcast use {vstd::std_specs::btree::group_btree_axioms, vstd::laws_cmp::group_laws_cmp};

/// Keys that a `BTreeSet` iterator yields in increasing order are strictly
/// increasing as numbers.
proof fn lemma_increasing_keys(keys: Seq<&usize>)
    requires
        vstd::std_specs::btree::increasing_seq(keys),
    ensures
        forall|i: int, j: int| 0 <= i < j < keys.len() ==> *keys[i] < *keys[j],
{
    assert(vstd::laws_cmp::obeys_cmp::<usize>());
    assert(vstd::laws_cmp::obeys_cmp::<&usize>());
    assert forall|i: int, j: int| 0 <= i < j < keys.len() implies *keys[i] < *keys[j] by {
        vstd::std_specs::btree::axiom_increasing_seq_meaning::<&usize>(keys);
        assert(OrdSpec::cmp_spec(&keys[i], &keys[j]) is Less);
    }
}

/// The handles of `handles`, each once, in increasing order (what
/// collecting them through a `BTreeSet` gives).
pub fn unique_handles(handles: Vec<usize>) -> (r: Vec<usize>)
    ensures
        forall|i: int, j: int| 0 <= i < j < r@.len() ==> r@[i] < r@[j],
        r@.to_set() == handles@.to_set(),
{
    let mut set: BTreeSet<usize> = BTreeSet::new();
    let mut i: usize = 0;
    while i < handles.len()
        invariant
            i <= handles@.len(),
            set@ == handles@.take(i as int).to_set(),
        decreases handles@.len() - i,
    {
        set.insert(handles[i]);
        assert(handles@.take(i + 1) =~= handles@.take(i as int).push(handles@[i as int]));
        proof {
            handles@.take(i as int).lemma_push_to_set_commute(handles@[i as int]);
        }
        i = i + 1;
    }
    assert(handles@.take(handles@.len() as int) =~= handles@);
    let mut out: Vec<usize> = Vec::new();
    let ghost keys = vstd::std_specs::btree::spec_btree_keys_iter(&set).remaining();
    for h in it: set.iter()
        invariant
            it.seq() == keys,
            out@.len() == it.index(),
            forall|k: int| 0 <= k < out@.len() ==> out@[k] == *it.seq()[k],
    {
        out.push(*h);
    }
    assert(out@ =~= keys.unref());
    assert(out@.to_set() =~= set@);
    assert(set@ =~= handles@.to_set());
    proof {
        lemma_increasing_keys(keys);
    }
    out
}

/// One argument of the form browser: its text, and the index of the
/// handle to open when the text is a decimal number.
pub struct FormArg {
    pub text: String,
    pub index: Option<usize>,
}

/// Whether `arg` is what the form browser reads from the code units
/// `units`: their decoded text, and the handle index that the text names
/// when it is an unsigned decimal that fits a `usize`.
pub open spec fn reads_form_arg(units: Seq<u16>, arg: FormArg) -> bool {
    &&& decoded_text(units) == Some(arg.text@)
    &&& (arg.index is Some <==> (decimal_value(arg.text@) matches Some(v) && v <= usize::MAX))
    &&& (arg.index matches Some(i) ==> decimal_value(arg.text@) == Some(i as nat))
}

/// Reads one argument of the form browser (UCS-2 code units): decodes it,
/// failing as [`ucs2_decode`] does, and reads it as a handle index; text
/// that is not an unsigned decimal that fits a `usize` names no handle.
pub fn read_form_arg(units: &[u16]) -> (r: Result<FormArg>)
    requires
        units@.len() * 2 <= usize::MAX,
    ensures
        r is Ok <==> decoded_text(units@) is Some,
        r matches Ok(arg) ==> reads_form_arg(units@, arg),
        r matches Err(e) ==> decode_failure(units@, e),
{
    let text = match ucs2_decode(units) {
        Ok(t) => t,
        Err(e) => return Err(e),
    };
    let index = match parse_usize(text.as_str()) {
        Ok(i) => Some(i),
        Err(_) => None,
    };
    Ok(FormArg { text, index })
}

/// Why the form browser stops walking its arguments before the last one.
pub enum FormStop {
    /// The next argument cannot be decoded: the tool fails with this error.
    Undecodable(Error),
    /// The last argument read names this handle index, past the end of the
    /// handle list: the tool panics there, as indexing the list does.
    NoSuchHandle(usize),
}

/// Which forms the form browser opens.
pub enum FormPlan {
    /// With no arguments: every handle of the list, in order.
    EachHandle,
    /// With arguments: those read, in order, each opening the handle that it
    /// names; and why the walk stopped early, if it did.
    Arguments { read: Vec<FormArg>, stop: Option<FormStop> },
}

/// Whether the handle that `arg` names, if any, lies in a list of `n`.
pub open spec fn names_listed_handle(arg: FormArg, n: usize) -> bool {
    arg.index matches Some(i) ==> i < n
}

/// Whether the walk stopped at a handle index past the end of the list.
pub open spec fn stopped_past_end(stop: Option<FormStop>) -> bool {
    stop matches Some(FormStop::NoSuchHandle(_))
}

/// The form browser's choice for its command line `args` (the program's
/// name first) and a handle list of `n_handles`. With no argument after the
/// name it opens every handle. Otherwise it reads the arguments in order,
/// each as [`read_form_arg`] does, and stops at the first that cannot be
/// decoded (not read; its error is kept) or at the first that names an
/// index past the end of the list (read; the tool panics on it).
pub fn plan_forms(args: &Vec<Vec<u16>>, n_handles: usize) -> (r: FormPlan)
    requires
        forall|k: int| 0 <= k < args@.len() ==> #[trigger] args@[k]@.len() * 2 <= usize::MAX,
    ensures
        args@.len() <= 1 ==> r is EachHandle,
        args@.len() > 1 ==> (r matches FormPlan::Arguments { read, stop } && {
            &&& read@.len() <= args@.len() - 1
            &&& forall|k: int|
                0 <= k < read@.len() ==> reads_form_arg(args@[k + 1]@, #[trigger] read@[k])
            &&& forall|k: int|
                0 <= k < read@.len() && !(stopped_past_end(stop) && k == read@.len() - 1)
                    ==> names_listed_handle(#[trigger] read@[k], n_handles)
            &&& match stop {
                None => read@.len() == args@.len() - 1,
                Some(FormStop::Undecodable(e)) => {
                    &&& read@.len() < args@.len() - 1
                    &&& decoded_text(args@[read@.len() + 1int]@) is None
                    &&& decode_failure(args@[read@.len() + 1int]@, e)
                },
                Some(FormStop::NoSuchHandle(i)) => {
                    &&& read@.len() > 0
                    &&& read@.last().index == Some(i)
                    &&& i >= n_handles
                },
            }
        }),
{
    if args.len() <= 1 {
        return FormPlan::EachHandle;
    }
    let mut read: Vec<FormArg> = Vec::new();
    let mut k: usize = 1;
    while k < args.len()
        invariant
            1 <= k <= args@.len(),
            read@.len() == k - 1,
            forall|j: int| 0 <= j < args@.len() ==> #[trigger] args@[j]@.len() * 2 <= usize::MAX,
            forall|j: int| 0 <= j < read@.len() ==> reads_form_arg(args@[j + 1]@, #[trigger] read@[j]),
            forall|j: int| 0 <= j < read@.len() ==> names_listed_handle(#[trigger] read@[j], n_handles),
        decreases args@.len() - k,
    {
        match read_form_arg(args[k].as_slice()) {
            Ok(arg) => {
                let index = arg.index;
                read.push(arg);
                if let Some(i) = index {
                    if i >= n_handles {
                        return FormPlan::Arguments {
                            read,
                            stop: Some(FormStop::NoSuchHandle(i)),
                        };
                    }
                }
            },
            Err(e) => {
                return FormPlan::Arguments { read, stop: Some(FormStop::Undecodable(e)) };
            },
        }
        k = k + 1;
    }
    FormPlan::Arguments { read, stop: None }
}

} // verus!

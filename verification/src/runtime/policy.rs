//! The output protocol: which files the guest must and may leave in its
//! output directory, and how large they may be.
use vstd::prelude::*;

use crate::runtime::error::HostRuntimeError;
use crate::runtime::file_set::FileSet;
use crate::runtime::paths::{
    is_plain_name_char, lemma_plain_from_all_public, lemma_plain_name_is_relative,
    lemma_plain_text_is_relative, plain_from, relative_path, relative_path_ok,
};
use vstd::string::StringExecFns;

verus! {

/// The receipt that every session must leave.
pub const RECEIPT_FILE: &'static str = "session.json";

/// The largest total size a policy may allow: 64 MiB.
pub const MAX_POLICY_TOTAL_BYTES: u64 = 67108864;

/// The name of the receipt file.
pub open spec fn receipt_file() -> Seq<char> {
    "session.json"@
}

/// The optional files of every runtime: guest error and observation
/// reports, the execution marker, and the target's two logs.
pub open spec fn runtime_optional_files() -> Set<Seq<char>> {
    set![
        "guest-error.json"@,
        "guest-observation.json"@,
        "target-executed.txt"@,
        "target.stderr.log"@,
        "target.stdout.log"@,
    ]
}

/// The optional files of a native-source runtime: those of every runtime
/// and the two compiler logs.
pub open spec fn native_source_optional_files() -> Set<Seq<char>> {
    runtime_optional_files().insert("compile.stderr.log"@).insert("compile.stdout.log"@)
}

/// The decimal digit `d`.
pub open spec fn digit_char(d: int) -> char {
    if d == 0 {
        '0'
    } else if d == 1 {
        '1'
    } else if d == 2 {
        '2'
    } else if d == 3 {
        '3'
    } else if d == 4 {
        '4'
    } else if d == 5 {
        '5'
    } else if d == 6 {
        '6'
    } else if d == 7 {
        '7'
    } else if d == 8 {
        '8'
    } else {
        '9'
    }
}

/// `crash-NN` followed by `suffix`, where `NN` is `index` in two digits.
pub open spec fn crash_file_name(index: int, suffix: Seq<char>) -> Seq<char> {
    "crash-"@ + seq![digit_char(index / 10), digit_char(index % 10)] + suffix
}

/// One of the three evidence files of crash number `index`.
pub open spec fn is_crash_evidence(name: Seq<char>, index: int) -> bool {
    ||| name == crash_file_name(index, "-input.bin"@)
    ||| name == crash_file_name(index, "-minimize.stdout.log"@)
    ||| name == crash_file_name(index, "-minimize.stderr.log"@)
}

/// The evidence files of crashes 1 to `count`.
pub open spec fn crash_evidence_files(count: int) -> Set<Seq<char>> {
    Set::new(|name: Seq<char>| exists|i: int| 1 <= i <= count && #[trigger] is_crash_evidence(name, i))
}

/// The optional files of a libFuzzer runtime: those of every runtime, the
/// first crash input, and the evidence of up to 16 crashes.
pub open spec fn lib_fuzzer_optional_files() -> Set<Seq<char>> {
    runtime_optional_files().insert("crash-input.bin"@).union(crash_evidence_files(16))
}

/// Which files the guest must and may leave, and the size limits on them.
#[derive(Debug, Clone, PartialEq, Eq)]
pub struct HostRuntimeOutputPolicy {
    pub required_files: FileSet,
    pub optional_files: FileSet,
    pub max_file_bytes: u64,
    pub max_total_bytes: u64,
}

/// The policy's size limits: a positive per-file limit, no larger than the
/// total limit, which is at most 64 MiB.
pub open spec fn size_policy_ok(max_file_bytes: u64, max_total_bytes: u64) -> bool {
    &&& max_file_bytes > 0
    &&& max_total_bytes >= max_file_bytes
    &&& max_total_bytes <= MAX_POLICY_TOTAL_BYTES
}

/// The policy's file names, required ones first, each part in byte order.
pub open spec fn policy_files(p: HostRuntimeOutputPolicy) -> Seq<Seq<char>> {
    p.required_files@ + p.optional_files@
}

/// No name is both required and optional.
pub open spec fn files_disjoint(p: HostRuntimeOutputPolicy) -> bool {
    !(exists|x: Seq<char>| p.required_files@.contains(x) && p.optional_files@.contains(x))
}

/// `files[k]` is the first name that is not a safe relative path.
pub open spec fn first_unsafe_path(files: Seq<Seq<char>>, k: int) -> bool {
    &&& 0 <= k < files.len()
    &&& !relative_path_ok(files[k])
    &&& forall|j: int| 0 <= j < k ==> relative_path_ok(#[trigger] files[j])
}

/// Every rule of the output protocol holds of `p`.
pub open spec fn policy_ok(p: HostRuntimeOutputPolicy) -> bool {
    &&& p.required_files@.contains(receipt_file())
    &&& files_disjoint(p)
    &&& size_policy_ok(p.max_file_bytes, p.max_total_bytes)
    &&& forall|k: int| 0 <= k < policy_files(p).len() ==> relative_path_ok(#[trigger] policy_files(p)[k])
}

/// Inserts `name` into `set`.
fn add_name(set: &mut FileSet, name: &str)
    ensures
        final(set)@.to_set() == old(set)@.to_set().insert(name@),
{
    set.insert(name.to_owned());
}

/// The decimal digit `d` as text.
fn digit_text(d: u8) -> (text: &'static str)
    requires
        d < 10,
    ensures
        text@ == seq![digit_char(d as int)],
{
    proof {
        reveal_strlit("0");
        reveal_strlit("1");
        reveal_strlit("2");
        reveal_strlit("3");
        reveal_strlit("4");
        reveal_strlit("5");
        reveal_strlit("6");
        reveal_strlit("7");
        reveal_strlit("8");
        reveal_strlit("9");
    }
    match d {
        0 => "0",
        1 => "1",
        2 => "2",
        3 => "3",
        4 => "4",
        5 => "5",
        6 => "6",
        7 => "7",
        8 => "8",
        _ => "9",
    }
}

/// `crash-NN` and `suffix`, with `index` written in two digits.
fn crash_name(index: u8, suffix: &str) -> (name: String)
    requires
        index < 100,
    ensures
        name@ == crash_file_name(index as int, suffix@),
{
    let mut name = "crash-".to_owned();
    name.append(digit_text(index / 10));
    name.append(digit_text(index % 10));
    name.append(suffix);
    assert(name@ =~= crash_file_name(index as int, suffix@));
    name
}

impl HostRuntimeOutputPolicy {
    /// The policy of an original PE target.
    pub fn original_pe() -> (p: Self)
        ensures
            p.required_files@.to_set() == set![receipt_file()],
            p.optional_files@.to_set() == runtime_optional_files(),
            p.max_file_bytes == 1048576,
            p.max_total_bytes == 2097152,
            policy_ok(p),
    {
        Self::runtime_output()
    }

    /// The policy of a Windows Python target.
    pub fn windows_python() -> (p: Self)
        ensures
            p.required_files@.to_set() == set![receipt_file()],
            p.optional_files@.to_set() == runtime_optional_files(),
            p.max_file_bytes == 1048576,
            p.max_total_bytes == 2097152,
            policy_ok(p),
    {
        Self::runtime_output()
    }

    /// The policy of a native-source target: the compiler logs are also
    /// allowed, and the outputs may total 4 MiB.
    pub fn windows_native_source() -> (p: Self)
        ensures
            p.required_files@.to_set() == set![receipt_file()],
            p.optional_files@.to_set() == native_source_optional_files(),
            p.max_file_bytes == 1048576,
            p.max_total_bytes == 4194304,
            policy_ok(p),
    {
        let base = Self::runtime_output();
        let mut optional_files = FileSet::new();
        add_name(&mut optional_files, "guest-error.json");
        add_name(&mut optional_files, "guest-observation.json");
        add_name(&mut optional_files, "target-executed.txt");
        add_name(&mut optional_files, "target.stderr.log");
        add_name(&mut optional_files, "target.stdout.log");
        add_name(&mut optional_files, "compile.stderr.log");
        add_name(&mut optional_files, "compile.stdout.log");
        let p = HostRuntimeOutputPolicy {
            optional_files,
            max_total_bytes: 4 * 1024 * 1024,
            ..base
        };
        proof {
            assert(p.optional_files@.to_set() =~= native_source_optional_files());
            lemma_preset_policy_valid(p);
        }
        p
    }

    /// The policy of a prebuilt libFuzzer target: the first crash input and
    /// the input and minimization logs of crashes 1 to 16 are also allowed,
    /// and the outputs may total 4 MiB.
    pub fn windows_lib_fuzzer() -> (p: Self)
        ensures
            p.required_files@.to_set() == set![receipt_file()],
            p.optional_files@.to_set() == lib_fuzzer_optional_files(),
            p.max_file_bytes == 1048576,
            p.max_total_bytes == 4194304,
            policy_ok(p),
    {
        let mut optional_files = FileSet::new();
        add_name(&mut optional_files, "guest-error.json");
        add_name(&mut optional_files, "guest-observation.json");
        add_name(&mut optional_files, "target-executed.txt");
        add_name(&mut optional_files, "target.stderr.log");
        add_name(&mut optional_files, "target.stdout.log");
        add_name(&mut optional_files, "crash-input.bin");
        let ghost base = runtime_optional_files().insert("crash-input.bin"@);
        assert(optional_files@.to_set() =~= base.union(crash_evidence_files(0)));
        let mut index: u8 = 1;
        while index <= 16
            invariant
                1 <= index <= 17,
                optional_files@.to_set() == base.union(crash_evidence_files(index - 1)),
            decreases 17 - index,
        {
            let ghost before = optional_files@.to_set();
            let input = crash_name(index, "-input.bin");
            let stdout_log = crash_name(index, "-minimize.stdout.log");
            let stderr_log = crash_name(index, "-minimize.stderr.log");
            let ghost added = set![input@, stdout_log@, stderr_log@];
            optional_files.insert(input);
            optional_files.insert(stdout_log);
            optional_files.insert(stderr_log);
            proof {
                let n = index as int;
                assert forall|x: Seq<char>| #[trigger] crash_evidence_files(n).contains(x)
                    == (crash_evidence_files(n - 1).contains(x) || added.contains(x)) by {
                    if crash_evidence_files(n).contains(x) {
                        let i = choose|i: int| 1 <= i <= n && #[trigger] is_crash_evidence(x, i);
                        if i < n {
                            assert(crash_evidence_files(n - 1).contains(x));
                        }
                    }
                    if added.contains(x) {
                        assert(is_crash_evidence(x, n));
                    }
                    if crash_evidence_files(n - 1).contains(x) {
                        let i = choose|i: int| 1 <= i <= n - 1 && #[trigger] is_crash_evidence(x, i);
                        assert(is_crash_evidence(x, i));
                    }
                }
                assert(optional_files@.to_set() =~= base.union(crash_evidence_files(n)));
            }
            index = index + 1;
        }
        let base_policy = Self::runtime_output();
        let p = HostRuntimeOutputPolicy {
            optional_files,
            max_total_bytes: 4 * 1024 * 1024,
            ..base_policy
        };
        proof {
            assert(p.optional_files@.to_set() =~= lib_fuzzer_optional_files());
            lemma_preset_policy_valid(p);
        }
        p
    }

    /// The policy shared by the runtimes: the receipt, the five optional
    /// reports and logs, 1 MiB per file and 2 MiB in all.
    pub fn runtime_output() -> (p: Self)
        ensures
            p.required_files@.to_set() == set![receipt_file()],
            p.optional_files@.to_set() == runtime_optional_files(),
            p.max_file_bytes == 1048576,
            p.max_total_bytes == 2097152,
            policy_ok(p),
    {
        let mut required_files = FileSet::new();
        add_name(&mut required_files, RECEIPT_FILE);
        let mut optional_files = FileSet::new();
        add_name(&mut optional_files, "guest-error.json");
        add_name(&mut optional_files, "guest-observation.json");
        add_name(&mut optional_files, "target-executed.txt");
        add_name(&mut optional_files, "target.stderr.log");
        add_name(&mut optional_files, "target.stdout.log");
        let p = HostRuntimeOutputPolicy {
            required_files,
            optional_files,
            max_file_bytes: 1024 * 1024,
            max_total_bytes: 2 * 1024 * 1024,
        };
        proof {
            assert(p.required_files@.to_set() =~= set![receipt_file()]);
            assert(p.optional_files@.to_set() =~= runtime_optional_files());
            lemma_preset_policy_valid(p);
        }
        p
    }
}

impl HostRuntimeOutputPolicy {
    /// Checks the output protocol: `session.json` is required, no file is
    /// both required and optional, the size limits are consistent and at
    /// most 64 MiB, and every file name is a safe relative path.
    pub fn validate(&self) -> (r: Result<(), HostRuntimeError>)
        ensures
            (r is Ok) == policy_ok(*self),
            !self.required_files@.contains(receipt_file()) ==> r
                == Err::<(), HostRuntimeError>(HostRuntimeError::MissingReceiptFile),
            self.required_files@.contains(receipt_file()) && !files_disjoint(*self) ==> r
                == Err::<(), HostRuntimeError>(HostRuntimeError::OverlappingOutputFiles),
            self.required_files@.contains(receipt_file()) && files_disjoint(*self)
                && !size_policy_ok(self.max_file_bytes, self.max_total_bytes) ==> r
                == Err::<(), HostRuntimeError>(HostRuntimeError::InvalidSizePolicy),
            self.required_files@.contains(receipt_file()) && files_disjoint(*self)
                && size_policy_ok(self.max_file_bytes, self.max_total_bytes) ==> match r {
                Ok(_) => true,
                Err(e) => exists|k: int|
                    #![trigger policy_files(*self)[k]]
                    first_unsafe_path(policy_files(*self), k) && (e
                        matches HostRuntimeError::InvalidOutputPath(f) && f@ == policy_files(
                        *self,
                    )[k]),
            },
    {
        if !self.required_files.contains(RECEIPT_FILE) {
            return Err(HostRuntimeError::MissingReceiptFile);
        }
        if !self.required_files.is_disjoint(&self.optional_files) {
            return Err(HostRuntimeError::OverlappingOutputFiles);
        }
        if !(self.max_file_bytes > 0 && self.max_total_bytes >= self.max_file_bytes
            && self.max_total_bytes <= MAX_POLICY_TOTAL_BYTES) {
            return Err(HostRuntimeError::InvalidSizePolicy);
        }
        let ghost files = policy_files(*self);
        let required = self.required_files.names();
        let optional = self.optional_files.names();
        let ghost req = self.required_files@;
        let mut i: usize = 0;
        while i < required.len()
            invariant
                files == policy_files(*self),
                self.required_files@.contains(receipt_file()),
                files_disjoint(*self),
                size_policy_ok(self.max_file_bytes, self.max_total_bytes),
                files == req + self.optional_files@,
                required@.map_values(|s: String| s@) == req,
                i <= req.len(),
                forall|j: int| 0 <= j < i ==> relative_path_ok(#[trigger] files[j]),
            decreases req.len() - i,
        {
            assert(files[i as int] == required@[i as int]@);
            if relative_path(required[i].as_str()).is_none() {
                assert(first_unsafe_path(files, i as int));
                return Err(HostRuntimeError::InvalidOutputPath(required[i].clone()));
            }
            i = i + 1;
        }
        let mut i: usize = 0;
        while i < optional.len()
            invariant
                files == policy_files(*self),
                self.required_files@.contains(receipt_file()),
                files_disjoint(*self),
                size_policy_ok(self.max_file_bytes, self.max_total_bytes),
                files == req + self.optional_files@,
                optional@.map_values(|s: String| s@) == self.optional_files@,
                i <= self.optional_files@.len(),
                forall|j: int| 0 <= j < req.len() + i ==> relative_path_ok(#[trigger] files[j]),
            decreases self.optional_files@.len() - i,
        {
            assert(files[req.len() + i] == optional@[i as int]@);
            if relative_path(optional[i].as_str()).is_none() {
                assert(first_unsafe_path(files, req.len() + i));
                return Err(HostRuntimeError::InvalidOutputPath(optional[i].clone()));
            }
            i = i + 1;
        }
        Ok(())
    }
}

/// In a policy that passes validation the receipt is required and never
/// merely optional, and no file is both.
pub proof fn lemma_valid_policy_receipt_is_required_only(p: HostRuntimeOutputPolicy)
    requires
        policy_ok(p),
    ensures
        p.required_files@.contains(receipt_file()),
        !p.optional_files@.contains(receipt_file()),
        forall|x: Seq<char>| p.optional_files@.contains(x) ==> !p.required_files@.contains(x),
{
}

/// Every fixed optional name of the presets is a safe relative path and is
/// not the receipt, which is a safe relative path too.
proof fn lemma_fixed_names_ok()
    ensures
        relative_path_ok(receipt_file()),
        forall|x: Seq<char>|
            #[trigger] native_source_optional_files().insert("crash-input.bin"@).contains(x)
                ==> relative_path_ok(x) && x != receipt_file(),
{
    reveal_strlit("guest-error.json");
    reveal_strlit("guest-observation.json");
    reveal_strlit("target-executed.txt");
    reveal_strlit("target.stderr.log");
    reveal_strlit("target.stdout.log");
    reveal_strlit("compile.stderr.log");
    reveal_strlit("compile.stdout.log");
    reveal_strlit("crash-input.bin");
    reveal_strlit("session.json");
    reveal_with_fuel(plain_from, 30);
    lemma_plain_text_is_relative("guest-error.json"@);
    lemma_plain_text_is_relative("guest-observation.json"@);
    lemma_plain_text_is_relative("target-executed.txt"@);
    lemma_plain_text_is_relative("target.stderr.log"@);
    lemma_plain_text_is_relative("target.stdout.log"@);
    lemma_plain_text_is_relative("compile.stderr.log"@);
    lemma_plain_text_is_relative("compile.stdout.log"@);
    lemma_plain_text_is_relative("crash-input.bin"@);
    lemma_plain_text_is_relative("session.json"@);
    assert forall|x: Seq<char>|
        #[trigger] native_source_optional_files().insert("crash-input.bin"@).contains(x) implies relative_path_ok(x)
            && x != receipt_file() by {
        assert(x[0] != receipt_file()[0]);
    }
}

proof fn lemma_crash_name_ok(i: int, suffix: Seq<char>)
    requires
        0 < suffix.len() <= 64,
        plain_from(suffix, 0),
    ensures
        relative_path_ok(crash_file_name(i, suffix)),
        crash_file_name(i, suffix) != receipt_file(),
{
    reveal_strlit("crash-");
    reveal_strlit("session.json");
    let prefix = "crash-"@;
    let digits = seq![digit_char(i / 10), digit_char(i % 10)];
    let x = crash_file_name(i, suffix);
    assert(x == prefix + digits + suffix);
    lemma_plain_from_all_public(suffix);
    assert forall|k: int| 0 <= k < x.len() implies is_plain_name_char(#[trigger] x[k]) by {
        if k < 6 {
            assert(x[k] == prefix[k]);
        } else if k < 8 {
            assert(x[k] == digits[k - 6]);
        } else {
            assert(x[k] == suffix[k - 8]);
        }
    }
    lemma_plain_name_is_relative(x);
    assert(x[0] == 'c');
    assert(receipt_file()[0] == 's');
}

/// Every crash evidence name is a safe relative path and is not the receipt.
proof fn lemma_crash_evidence_ok(count: int)
    ensures
        forall|x: Seq<char>|
            #[trigger] crash_evidence_files(count).contains(x) ==> relative_path_ok(x) && x
                != receipt_file(),
{
    reveal_strlit("-input.bin");
    reveal_strlit("-minimize.stdout.log");
    reveal_strlit("-minimize.stderr.log");
    reveal_with_fuel(plain_from, 30);
    assert(plain_from("-input.bin"@, 0));
    assert(plain_from("-minimize.stdout.log"@, 0));
    assert(plain_from("-minimize.stderr.log"@, 0));
    assert forall|x: Seq<char>| #[trigger] crash_evidence_files(count).contains(x) implies relative_path_ok(x)
        && x != receipt_file() by {
        let i = choose|i: int| 1 <= i <= count && #[trigger] is_crash_evidence(x, i);
        if x == crash_file_name(i, "-input.bin"@) {
            lemma_crash_name_ok(i, "-input.bin"@);
        } else if x == crash_file_name(i, "-minimize.stdout.log"@) {
            lemma_crash_name_ok(i, "-minimize.stdout.log"@);
        } else {
            lemma_crash_name_ok(i, "-minimize.stderr.log"@);
        }
    }
}

/// A policy with the receipt as its only required file, the optional files
/// of one of the presets, and consistent limits passes validation: so do
/// the presets themselves.
pub proof fn lemma_preset_policy_valid(p: HostRuntimeOutputPolicy)
    requires
        p.required_files@.to_set() == set![receipt_file()],
        p.optional_files@.to_set() == runtime_optional_files() || p.optional_files@.to_set()
            == native_source_optional_files() || p.optional_files@.to_set()
            == lib_fuzzer_optional_files(),
        size_policy_ok(p.max_file_bytes, p.max_total_bytes),
    ensures
        policy_ok(p),
{
    lemma_fixed_names_ok();
    lemma_crash_evidence_ok(16);
    let req = p.required_files@;
    let opt = p.optional_files@;
    assert forall|x: Seq<char>| opt.contains(x) implies relative_path_ok(x) && x != receipt_file() by {
        assert(opt.to_set().contains(x));
        if crash_evidence_files(16).contains(x) {
        } else {
            assert(native_source_optional_files().insert("crash-input.bin"@).contains(x));
        }
    }
    assert(req.to_set().contains(receipt_file()));
    assert(req.contains(receipt_file()));
    assert forall|x: Seq<char>| req.contains(x) implies x == receipt_file() by {
        assert(req.to_set().contains(x));
    }
    let files = policy_files(p);
    assert forall|k: int| 0 <= k < files.len() implies relative_path_ok(#[trigger] files[k]) by {
        if k < req.len() {
            assert(req.contains(req[k]));
            assert(files[k] == req[k]);
        } else {
            assert(opt.contains(opt[k - req.len()]));
            assert(files[k] == opt[k - req.len()]);
        }
    }
}

} // verus!

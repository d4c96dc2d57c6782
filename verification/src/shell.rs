//! The decisions of the interactive shell: tokenizing a command line,
//! recognising program names, and picking out bootable kernels and
//! ramdisks by their file names.  The shell's input/output loop lives in
//! the surrounding program and calls in here.

use vstd::prelude::*;
use vstd::arithmetic::div_mod::{lemma_fundamental_div_mod, lemma_mod_bound};
use vstd::arithmetic::mul::lemma_mul_inequality;
use crate::fs::FsPath;

verus! {

broadcast use vstd::string::group_string_axioms;

/// The programs the shell knows.
#[derive(Debug, Clone, Copy, PartialEq, Eq, Structural)]
pub enum Program {
    HELP,
    EXIT,
    LS,
    CLEAR,
    PRINTMMAP,
    CD,
    RUNEFI,
    RUNKERNEL,
}

/// The name each program answers to.
pub open spec fn spec_program_name(p: Program) -> Seq<char> {
    match p {
        Program::HELP => "help"@,
        Program::EXIT => "exit"@,
        Program::LS => "ls"@,
        Program::CLEAR => "clear"@,
        Program::PRINTMMAP => "printmmap"@,
        Program::CD => "cd"@,
        Program::RUNEFI => "runefi"@,
        Program::RUNKERNEL => "runkernel"@,
    }
}

impl Program {
    /// The program's name.
    pub fn name(&self) -> (r: String)
        ensures
            r@ == spec_program_name(*self),
    {
        String::from_str(
            match self {
                Program::HELP => "help",
                Program::EXIT => "exit",
                Program::LS => "ls",
                Program::CLEAR => "clear",
                Program::PRINTMMAP => "printmmap",
                Program::CD => "cd",
                Program::RUNEFI => "runefi",
                Program::RUNKERNEL => "runkernel",
            },
        )
    }

    /// Recognises a program by its name.
    pub fn from(string: &str) -> (r: Option<Program>)
        ensures
            r matches Some(p) ==> string@ == spec_program_name(p),
            r is None ==> (forall|p: Program| string@ != spec_program_name(p)),
    {
        if str_eq(string, "help") {
            Some(Program::HELP)
        } else if str_eq(string, "exit") {
            Some(Program::EXIT)
        } else if str_eq(string, "ls") {
            Some(Program::LS)
        } else if str_eq(string, "clear") {
            Some(Program::CLEAR)
        } else if str_eq(string, "printmmap") {
            Some(Program::PRINTMMAP)
        } else if str_eq(string, "cd") {
            Some(Program::CD)
        } else if str_eq(string, "runefi") {
            Some(Program::RUNEFI)
        } else if str_eq(string, "runkernel") {
            Some(Program::RUNKERNEL)
        } else {
            proof {
                assert forall|p: Program| string@ != spec_program_name(p) by {}
            }
            None
        }
    }
}

/// Compares two strings by their characters.
pub fn str_eq(a: &str, b: &str) -> (r: bool)
    ensures
        r == (a@ == b@),
{
    let sa = String::from_str(a);
    let sb = String::from_str(b);
    sa.eq(&sb)
}

/// The tokenizer's state after part of the command line: the finished
/// parts, the part being built, whether a backslash is pending, which
/// quotes are open, and whether the line was rejected.
pub struct TokenizerState {
    pub parts: Seq<Seq<char>>,
    pub cur: Seq<char>,
    pub escaped: bool,
    pub single_quoted: bool,
    pub double_quoted: bool,
    pub failed: bool,
}

/// The tokenizer's starting state.
pub open spec fn spec_token_init() -> TokenizerState {
    TokenizerState {
        parts: Seq::empty(),
        cur: Seq::empty(),
        escaped: false,
        single_quoted: false,
        double_quoted: false,
        failed: false,
    }
}

/// One character of tokenization.  A backslash escapes; an unquoted space
/// finishes the part being built; quotes toggle unless escaped or inside
/// the other kind of quote; an escaped space rejects the line.
pub open spec fn spec_token_step(st: TokenizerState, c: char) -> TokenizerState {
    if st.failed {
        st
    } else if c == '\\' {
        if st.escaped {
            TokenizerState { cur: st.cur.push('\\'), escaped: false, ..st }
        } else {
            TokenizerState { escaped: true, ..st }
        }
    } else if c == ' ' {
        if st.escaped {
            TokenizerState { failed: true, ..st }
        } else if st.single_quoted || st.double_quoted {
            TokenizerState { cur: st.cur.push(' '), ..st }
        } else if st.cur.len() > 0 {
            TokenizerState { parts: st.parts.push(st.cur), cur: Seq::empty(), ..st }
        } else {
            st
        }
    } else if c == '\'' {
        if st.escaped || st.double_quoted {
            TokenizerState { cur: st.cur.push('\''), ..st }
        } else {
            TokenizerState { single_quoted: !st.single_quoted, ..st }
        }
    } else if c == '"' {
        if st.escaped || st.single_quoted {
            TokenizerState { cur: st.cur.push('"'), ..st }
        } else {
            TokenizerState { double_quoted: !st.double_quoted, ..st }
        }
    } else {
        TokenizerState { cur: st.cur.push(c), ..st }
    }
}

/// The tokenizer's state after the first `n` characters.
pub open spec fn spec_token_run(s: Seq<char>, n: int) -> TokenizerState
    decreases n,
{
    if n <= 0 {
        spec_token_init()
    } else {
        spec_token_step(spec_token_run(s, n - 1), s[n - 1])
    }
}

/// A rejected line stays rejected.
proof fn lemma_token_failed_sticky(s: Seq<char>, i: int, n: int)
    requires
        0 <= i <= n,
        spec_token_run(s, i).failed,
    ensures
        spec_token_run(s, n).failed,
    decreases n - i,
{
    if n > i {
        lemma_token_failed_sticky(s, i, n - 1);
    }
}

/// What tokenizing the whole line yields: the parts, with an unfinished
/// part kept; nothing for a rejected or empty line.
pub open spec fn spec_tokenize(s: Seq<char>) -> Option<Seq<Seq<char>>> {
    let st = spec_token_run(s, s.len() as int);
    if st.failed {
        None
    } else {
        let parts = if st.cur.len() > 0 {
            st.parts.push(st.cur)
        } else {
            st.parts
        };
        if parts.len() == 0 {
            None
        } else {
            Some(parts)
        }
    }
}

/// Splits a command line into the program name and its arguments,
/// honouring backslash escapes and single and double quotes.
pub fn parse_command(command: &str) -> (r: Option<(String, Vec<String>)>)
    ensures
        spec_tokenize(command@) is None ==> r is None,
        spec_tokenize(command@) matches Some(parts) ==> (r matches Some(pa) && pa.0@ == parts[0]
            && pa.1.deep_view() == parts.skip(1)),
{
    let n = command.unicode_len();
    let mut parts: Vec<String> = Vec::new();
    let mut cur = String::new();
    let mut escaped = false;
    let mut single_quoted = false;
    let mut double_quoted = false;
    let mut i: usize = 0;
    proof {
        assert(parts.deep_view() =~= spec_token_init().parts);
    }
    while i < n
        invariant
            n == command@.len(),
            i <= n,
            !spec_token_run(command@, i as int).failed,
            parts.deep_view() == spec_token_run(command@, i as int).parts,
            cur@ == spec_token_run(command@, i as int).cur,
            escaped == spec_token_run(command@, i as int).escaped,
            single_quoted == spec_token_run(command@, i as int).single_quoted,
            double_quoted == spec_token_run(command@, i as int).double_quoted,
        decreases n - i,
    {
        let ghost st = spec_token_run(command@, i as int);
        let ghost st2 = spec_token_run(command@, i as int + 1);
        proof {
            assert(st2 == spec_token_step(st, command@[i as int]));
        }
        let c = command.get_char(i);
        if c == '\\' {
            if escaped {
                proof {
                    reveal_strlit("\\");
                    assert("\\"@ =~= seq!['\\']);
                }
                cur.append("\\");
                proof {
                    assert(cur@ =~= st2.cur);
                }
                escaped = false;
            } else {
                escaped = true;
            }
        } else if c == ' ' {
            if escaped {
                proof {
                    lemma_token_failed_sticky(command@, i as int + 1, n as int);
                }
                return None;
            } else if single_quoted || double_quoted {
                proof {
                    reveal_strlit(" ");
                    assert(" "@ =~= seq![' ']);
                }
                cur.append(" ");
                proof {
                    assert(cur@ =~= st2.cur);
                }
            } else if cur.as_str().unicode_len() > 0 {
                let ghost pre = parts.deep_view();
                let ghost curv = cur@;
                parts.push(cur);
                cur = String::new();
                proof {
                    assert(parts.deep_view() =~= pre.push(curv));
                }
            }
        } else if c == '\'' {
            if escaped || double_quoted {
                proof {
                    reveal_strlit("'");
                    assert("'"@ =~= seq!['\'']);
                }
                cur.append("'");
                proof {
                    assert(cur@ =~= st2.cur);
                }
            } else {
                single_quoted = !single_quoted;
            }
        } else if c == '"' {
            if escaped || single_quoted {
                proof {
                    reveal_strlit("\"");
                    assert("\""@ =~= seq!['"']);
                }
                cur.append("\"");
                proof {
                    assert(cur@ =~= st2.cur);
                }
            } else {
                double_quoted = !double_quoted;
            }
        } else {
            let piece = command.substring_char(i, i + 1);
            cur.append(piece);
            proof {
                assert(command@.subrange(i as int, i as int + 1) =~= seq![command@[i as int]]);
                assert(cur@ =~= st2.cur);
            }
        }
        i = i + 1;
    }
    let ghost stf = spec_token_run(command@, n as int);
    if cur.as_str().unicode_len() > 0 {
        let ghost pre = parts.deep_view();
        let ghost curv = cur@;
        parts.push(cur);
        proof {
            assert(parts.deep_view() =~= pre.push(curv));
        }
    }
    if parts.len() == 0 {
        return None;
    }
    let ghost allparts = parts.deep_view();
    let program = parts.remove(0);
    proof {
        assert(parts.deep_view() =~= allparts.skip(1));
    }
    Some((program, parts))
}

/// The prefix a kernel image's file name carries.
pub open spec fn spec_kernel_prefixes() -> Seq<Seq<char>> {
    seq!["vmlinuz-"@, "bzImage-"@]
}

/// The version suffix of a file name that starts with `prefix`, if the
/// suffix is nonempty.
pub open spec fn spec_version_after(name: Seq<char>, prefix: Seq<char>) -> Option<Seq<char>> {
    if name.len() > prefix.len() && name.subrange(0, prefix.len() as int) == prefix {
        Some(name.skip(prefix.len() as int))
    } else {
        None
    }
}

/// Strips `prefix` from `name` and hands back the nonempty rest.
fn version_after(name: &str, prefix: &str) -> (r: Option<String>)
    ensures
        spec_version_after(name@, prefix@) matches Some(v) ==> (r matches Some(s) && s@ == v),
        spec_version_after(name@, prefix@) is None ==> r is None,
{
    let n = name.unicode_len();
    let p = prefix.unicode_len();
    if n <= p {
        return None;
    }
    let head = name.substring_char(0, p);
    if str_eq(head, prefix) {
        Some(name.substring_char(p, n).to_owned())
    } else {
        None
    }
}

/// The version a kernel image's name advertises: what follows
/// `vmlinuz-` or `bzImage-`.
pub fn kernel_image_version(name: &str) -> (r: Option<String>)
    ensures
        spec_version_after(name@, "vmlinuz-"@) matches Some(v) ==> (r matches Some(s) && s@
            == v),
        spec_version_after(name@, "vmlinuz-"@) is None ==> (spec_version_after(
            name@,
            "bzImage-"@,
        ) matches Some(v) ==> (r matches Some(s) && s@ == v)),
        spec_version_after(name@, "vmlinuz-"@) is None && spec_version_after(name@, "bzImage-"@)
            is None ==> r is None,
{
    let first = version_after(name, "vmlinuz-");
    if first.is_some() {
        return first;
    }
    version_after(name, "bzImage-")
}

/// The version a ramdisk image's name advertises: what follows
/// `initrd.img-` or `initramfs-`.
pub fn ramdisk_image_version(name: &str) -> (r: Option<String>)
    ensures
        spec_version_after(name@, "initrd.img-"@) matches Some(v) ==> (r matches Some(s) && s@
            == v),
        spec_version_after(name@, "initrd.img-"@) is None ==> (spec_version_after(
            name@,
            "initramfs-"@,
        ) matches Some(v) ==> (r matches Some(s) && s@ == v)),
        spec_version_after(name@, "initrd.img-"@) is None && spec_version_after(
            name@,
            "initramfs-"@,
        ) is None ==> r is None,
{
    let first = version_after(name, "initrd.img-");
    if first.is_some() {
        return first;
    }
    version_after(name, "initramfs-")
}

/// The first path recorded under a version, searching in order.
pub open spec fn spec_find_version(rs: Seq<(String, FsPath)>, v: Seq<char>) -> Option<FsPath>
    decreases rs.len(),
{
    if rs.len() == 0 {
        None
    } else if rs[0].0@ == v {
        Some(rs[0].1)
    } else {
        spec_find_version(rs.skip(1), v)
    }
}

/// Looks a version up in a list of `(version, path)` pairs, first match
/// wins.
pub fn find_version<'a>(rs: &'a Vec<(String, FsPath)>, version: &str) -> (r: Option<&'a FsPath>)
    ensures
        spec_find_version(rs@, version@) matches Some(p) ==> (r matches Some(q)
            && q.view_components() == p.view_components()),
        spec_find_version(rs@, version@) is None ==> r is None,
{
    let mut i: usize = 0;
    proof {
        assert(rs@.skip(0) =~= rs@);
    }
    while i < rs.len()
        invariant
            i <= rs@.len(),
            spec_find_version(rs@, version@) == spec_find_version(rs@.skip(i as int), version@),
            forall|j: int| 0 <= j < i ==> rs@[j].0@ != version@,
        decreases rs@.len() - i,
    {
        if str_eq(rs[i].0.as_str(), version) {
            proof {
                assert(rs@.skip(i as int)[0] == rs@[i as int]);
            }
            return Some(&rs[i].1);
        }
        proof {
            assert(rs@.skip(i as int).skip(1) =~= rs@.skip(i as int + 1));
        }
        i = i + 1;
    }
    proof {
        assert(rs@.skip(i as int).len() == 0);
    }
    None
}

/// The kernel command line the quickstart uses: the root device named
/// after the partition.
pub fn quickstart_cmdline(partition_name: &str) -> (r: String)
    ensures
        r@ == "root=/dev/"@ + partition_name@,
{
    let mut out = String::from_str("root=/dev/");
    out.append(partition_name);
    out
}

/// A way to boot without typing: chainloading a bootmanager image, or
/// starting a Linux kernel with a command line and an optional ramdisk.
pub enum QuickstartOption {
    EFI { full_path: FsPath },
    Kernel { kernel_path: FsPath, cmdline: String, ramdisk_path: Option<FsPath> },
}

/// The decimal value of a digit sequence, most significant first.
pub open spec fn spec_dec_value(s: Seq<char>) -> int
    decreases s.len(),
{
    if s.len() == 0 {
        0
    } else {
        spec_dec_value(s.drop_last()) * 10 + (s.last() as int - '0' as int)
    }
}

/// Whether every character is a decimal digit.
pub open spec fn spec_all_digits(s: Seq<char>) -> bool {
    forall|i: int| 0 <= i < s.len() ==> '0' <= #[trigger] s[i] <= '9'
}

/// Parses a decimal index.  Succeeds exactly on nonempty all-digit
/// strings whose value fits.
pub fn parse_usize(s: &str) -> (r: Option<usize>)
    ensures
        r matches Some(v) ==> s@.len() > 0 && spec_all_digits(s@) && v == spec_dec_value(s@),
        r is None ==> (s@.len() == 0 || !spec_all_digits(s@) || spec_dec_value(s@) > usize::MAX),
{
    let n = s.unicode_len();
    if n == 0 {
        return None;
    }
    let mut acc: usize = 0;
    let mut i: usize = 0;
    while i < n
        invariant
            n == s@.len(),
            i <= n,
            spec_all_digits(s@.subrange(0, i as int)),
            acc == spec_dec_value(s@.subrange(0, i as int)),
        decreases n - i,
    {
        let c = s.get_char(i);
        if !('0' <= c && c <= '9') {
            proof {
                assert(s@[i as int] == c);
            }
            return None;
        }
        let d: usize = (c as usize) - ('0' as usize);
        if acc > (usize::MAX - d) / 10 {
            proof {
                let q = (usize::MAX - d) as int / 10;
                lemma_fundamental_div_mod((usize::MAX - d) as int, 10);
                lemma_mod_bound((usize::MAX - d) as int, 10);
                lemma_mul_inequality(q + 1, acc as int, 10);
                assert(acc * 10 + d > usize::MAX);
                assert(s@.subrange(0, i as int + 1).drop_last() =~= s@.subrange(0, i as int));
                assert(s@.subrange(0, i as int + 1).last() == c);
                if spec_all_digits(s@) {
                    lemma_dec_value_grows(s@, i as int);
                }
            }
            return None;
        }
        proof {
            let q = (usize::MAX - d) as int / 10;
            lemma_fundamental_div_mod((usize::MAX - d) as int, 10);
            lemma_mod_bound((usize::MAX - d) as int, 10);
            lemma_mul_inequality(acc as int, q, 10);
            assert(s@.subrange(0, i as int + 1).drop_last() =~= s@.subrange(0, i as int));
        }
        acc = acc * 10 + d;
        i = i + 1;
    }
    proof {
        assert(s@.subrange(0, n as int) =~= s@);
    }
    Some(acc)
}

/// A digit string's value only grows as digits are appended.
proof fn lemma_dec_value_grows(s: Seq<char>, i: int)
    requires
        0 <= i < s.len(),
        spec_all_digits(s),
    ensures
        spec_dec_value(s) >= spec_dec_value(s.subrange(0, i + 1)),
    decreases s.len() - i,
{
    if i + 1 == s.len() {
        assert(s.subrange(0, i + 1) =~= s);
    } else {
        lemma_dec_value_grows(s, i + 1);
        assert(s.subrange(0, i + 2).drop_last() =~= s.subrange(0, i + 1));
        let t = s.subrange(0, i + 2);
        assert('0' <= t.last() <= '9');
        assert(spec_dec_value(s.subrange(0, i + 2)) == spec_dec_value(s.subrange(0, i + 1)) * 10
            + (t.last() as int - '0' as int));
        assert(spec_dec_value(s.subrange(0, i + 1)) >= 0) by {
            assert(spec_all_digits(s.subrange(0, i + 1)));
            lemma_dec_value_nonneg(s.subrange(0, i + 1));
        }
        assert(spec_dec_value(s.subrange(0, i + 1)) * 10 >= spec_dec_value(
            s.subrange(0, i + 1),
        )) by (nonlinear_arith)
            requires
                spec_dec_value(s.subrange(0, i + 1)) >= 0,
        ;
    }
}

/// A digit string's value is never negative.
proof fn lemma_dec_value_nonneg(s: Seq<char>)
    requires
        spec_all_digits(s),
    ensures
        spec_dec_value(s) >= 0,
    decreases s.len(),
{
    if s.len() > 0 {
        assert(spec_all_digits(s.drop_last()));
        lemma_dec_value_nonneg(s.drop_last());
        assert('0' <= s.last() <= '9');
        assert(spec_dec_value(s.drop_last()) * 10 >= 0) by (nonlinear_arith)
            requires
                spec_dec_value(s.drop_last()) >= 0,
        ;
    }
}

} // verus!

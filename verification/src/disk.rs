//! What the shell shows of storage: sizes in human-readable units, the
//! Linux-style names of drives and partitions, and the formats a
//! partition can carry.

use vstd::prelude::*;

verus! {

broadcast use vstd::string::group_string_axioms;

/// The formats a partition can carry, as far as the shell can tell.
#[derive(Debug, Clone, Copy, PartialEq, Eq, Structural)]
pub enum PartitionFormat {
    Ext4,
    Fat,
    Unknown,
}

impl PartitionFormat {
    /// The format's name as the shell prints it.
    pub fn as_str(&self) -> (r: &'static str)
        ensures
            *self is Ext4 ==> r@ == "EXT4"@,
            *self is Fat ==> r@ == "FAT"@,
            *self is Unknown ==> r@ == "Unknown"@,
    {
        match self {
            PartitionFormat::Ext4 => "EXT4",
            PartitionFormat::Fat => "FAT",
            PartitionFormat::Unknown => "Unknown",
        }
    }
}

/// The digit character of a value below ten.
pub open spec fn spec_digit(d: int) -> char {
    if d == 0 {
        '0'
    } else if d == 1 {
        '1'
    } else if d == 2 {
        '2'
    } else if d == 3 {
        '3'
    } else if d == 4 {
        '4'
    } else if d == 5 {
        '5'
    } else if d == 6 {
        '6'
    } else if d == 7 {
        '7'
    } else if d == 8 {
        '8'
    } else {
        '9'
    }
}

/// The decimal rendering of a number, most significant digit first.
pub open spec fn spec_dec(n: int) -> Seq<char>
    decreases n,
{
    if n < 10 {
        seq![spec_digit(n)]
    } else {
        spec_dec(n / 10).push(spec_digit(n % 10))
    }
}

/// One digit as a string.
fn digit_str(d: u64) -> (r: &'static str)
    requires
        d < 10,
    ensures
        r@ == seq![spec_digit(d as int)],
{
    proof {
        reveal_strlit("0");
        reveal_strlit("1");
        reveal_strlit("2");
        reveal_strlit("3");
        reveal_strlit("4");
        reveal_strlit("5");
        reveal_strlit("6");
        reveal_strlit("7");
        reveal_strlit("8");
        reveal_strlit("9");
        assert("0"@ =~= seq!['0']);
        assert("1"@ =~= seq!['1']);
        assert("2"@ =~= seq!['2']);
        assert("3"@ =~= seq!['3']);
        assert("4"@ =~= seq!['4']);
        assert("5"@ =~= seq!['5']);
        assert("6"@ =~= seq!['6']);
        assert("7"@ =~= seq!['7']);
        assert("8"@ =~= seq!['8']);
        assert("9"@ =~= seq!['9']);
    }
    if d == 0 {
        "0"
    } else if d == 1 {
        "1"
    } else if d == 2 {
        "2"
    } else if d == 3 {
        "3"
    } else if d == 4 {
        "4"
    } else if d == 5 {
        "5"
    } else if d == 6 {
        "6"
    } else if d == 7 {
        "7"
    } else if d == 8 {
        "8"
    } else {
        "9"
    }
}

/// Renders a number in decimal.
pub fn u64_to_dec_string(n: u64) -> (r: String)
    ensures
        r@ == spec_dec(n as int),
    decreases n,
{
    if n < 10 {
        String::from_str(digit_str(n))
    } else {
        let mut out = u64_to_dec_string(n / 10);
        out.append(digit_str(n % 10));
        proof {
            assert(out@ =~= spec_dec(n as int));
        }
        out
    }
}

/// A run of spaces.
pub open spec fn spec_spaces(k: int) -> Seq<char>
    decreases k,
{
    if k <= 0 {
        Seq::empty()
    } else {
        spec_spaces(k - 1).push(' ')
    }
}

/// A rendering padded on the left to at least four characters.
pub open spec fn spec_pad4(s: Seq<char>) -> Seq<char> {
    if s.len() >= 4 {
        s
    } else {
        spec_spaces(4 - s.len() as int) + s
    }
}

/// Right-aligns a short rendering in a four-character column.
fn pad4(s: String) -> (r: String)
    ensures
        r@ == spec_pad4(s@),
{
    let l = s.as_str().unicode_len();
    if l >= 4 {
        proof {
            assert(spec_pad4(s@) =~= s@);
        }
        return s;
    }
    let mut out = String::new();
    let mut k: usize = 0;
    proof {
        reveal_strlit(" ");
        assert(" "@ =~= seq![' ']);
        assert(out@ =~= spec_spaces(0));
    }
    while k < 4 - l
        invariant
            l == s@.len() < 4,
            k <= 4 - l,
            out@ == spec_spaces(k as int),
            " "@ == seq![' '],
        decreases 4 - l - k,
    {
        out.append(" ");
        proof {
            assert(out@ =~= spec_spaces(k as int + 1));
        }
        k = k + 1;
    }
    out.append(s.as_str());
    out
}

/// One kibibyte.
pub const K: u64 = 1024;

/// One mebibyte.
pub const M: u64 = 1024 * 1024;

/// One gibibyte.
pub const G: u64 = 1024 * 1024 * 1024;

/// A size rendered for the shell: scaled to the largest unit that leaves
/// at least two digits, right-aligned in four columns, with the unit
/// appended.
pub open spec fn spec_human_readable_size(size: int) -> Seq<char> {
    if size >= 10 * (G as int) {
        spec_pad4(spec_dec(size / (G as int))) + " GiB"@
    } else if size >= 10 * (M as int) {
        spec_pad4(spec_dec(size / (M as int))) + " MiB"@
    } else if size >= 10 * (K as int) {
        spec_pad4(spec_dec(size / (K as int))) + " KiB"@
    } else {
        spec_pad4(spec_dec(size)) + " B  "@
    }
}

/// Renders a byte count the way the shell lists sizes.
pub fn human_readable_size(size: u64) -> (r: String)
    ensures
        r@ == spec_human_readable_size(size as int),
{
    if size >= 10 * G {
        let mut out = pad4(u64_to_dec_string(size / G));
        out.append(" GiB");
        out
    } else if size >= 10 * M {
        let mut out = pad4(u64_to_dec_string(size / M));
        out.append(" MiB");
        out
    } else if size >= 10 * K {
        let mut out = pad4(u64_to_dec_string(size / K));
        out.append(" KiB");
        out
    } else {
        let mut out = pad4(u64_to_dec_string(size));
        out.append(" B  ");
        out
    }
}

/// The kinds of block device the shell tells apart, each named as Linux
/// would name it.
#[derive(Debug, Clone, Copy, PartialEq, Eq, Structural)]
pub enum DriveKind {
    /// Anything named like `sdX`.
    Sdx,
    /// An NVMe namespace, named like `nvmeXnY`.
    Nvme { namespace: u32 },
    /// An optical drive, named like `srX`.
    Cd,
}

/// The lowercase drive letters, in order.
pub open spec fn spec_drive_letters() -> Seq<char> {
    "abcdefghijklmnopqrstuvwxyz"@
}

/// The letter of the `index`-th `sdX` drive.
pub open spec fn spec_drive_letter(index: int) -> char {
    spec_drive_letters()[index]
}

/// The `index`-th lowercase drive letter.
fn drive_letter_str(index: u8) -> (r: &'static str)
    requires
        index < 26,
    ensures
        r@ == seq![spec_drive_letter(index as int)],
{
    proof {
        reveal_strlit("abcdefghijklmnopqrstuvwxyz");
    }
    let r = "abcdefghijklmnopqrstuvwxyz".substring_char(index as usize, index as usize + 1);
    proof {
        assert(r@ =~= seq![spec_drive_letter(index as int)]);
    }
    r
}

/// The Linux-style name of a whole drive: `sdX`, `nvmeXnY` or `srX`,
/// where `X` counts drives of that kind in discovery order.
pub fn drive_name(kind: &DriveKind, index: u8) -> (r: String)
    requires
        *kind is Sdx ==> index < 26,
    ensures
        *kind is Sdx ==> r@ == "sd"@ + seq![spec_drive_letter(index as int)],
        *kind matches DriveKind::Nvme { namespace } ==> r@ == "nvme"@ + spec_dec(index as int)
            + "n"@ + spec_dec(namespace as int),
        *kind is Cd ==> r@ == "sr"@ + spec_dec(index as int),
{
    match kind {
        DriveKind::Sdx => {
            let mut out = String::from_str("sd");
            out.append(drive_letter_str(index));
            out
        },
        DriveKind::Nvme { namespace } => {
            let mut out = String::from_str("nvme");
            let idx = u64_to_dec_string(index as u64);
            out.append(idx.as_str());
            out.append("n");
            let ns = u64_to_dec_string(*namespace as u64);
            out.append(ns.as_str());
            out
        },
        DriveKind::Cd => {
            let mut out = String::from_str("sr");
            let idx = u64_to_dec_string(index as u64);
            out.append(idx.as_str());
            out
        },
    }
}

/// The Linux-style name of a partition: the drive's name followed by the
/// partition number, with `p` between them on NVMe devices.
pub fn partition_name(kind: &DriveKind, index: u8, partition_number: u32) -> (r: String)
    requires
        !(*kind is Cd),
        *kind is Sdx ==> index < 26,
    ensures
        *kind is Sdx ==> r@ == "sd"@ + seq![spec_drive_letter(index as int)] + spec_dec(
            partition_number as int,
        ),
        *kind matches DriveKind::Nvme { namespace } ==> r@ == "nvme"@ + spec_dec(index as int)
            + "n"@ + spec_dec(namespace as int) + "p"@ + spec_dec(partition_number as int),
{
    let mut out = drive_name(kind, index);
    match kind {
        DriveKind::Nvme { .. } => {
            out.append("p");
        },
        _ => {},
    }
    let num = u64_to_dec_string(partition_number as u64);
    out.append(num.as_str());
    out
}

/// The first group that carries `key`, or -1 when none does.
pub open spec fn spec_find_group(groups: Seq<(Seq<char>, Seq<int>)>, key: Seq<char>) -> int
    decreases groups.len(),
{
    if groups.len() == 0 {
        -1
    } else if groups[0].0 == key {
        0
    } else {
        let rest = spec_find_group(groups.skip(1), key);
        if rest < 0 {
            -1
        } else {
            1 + rest
        }
    }
}

/// Grouping folded over the first `n` keys: each index joins the group of
/// its key, in order of first occurrence.
pub open spec fn spec_group_fold(keys: Seq<Seq<char>>, n: int) -> Seq<(Seq<char>, Seq<int>)>
    decreases n,
{
    if n <= 0 {
        Seq::empty()
    } else {
        let acc = spec_group_fold(keys, n - 1);
        let g = spec_find_group(acc, keys[n - 1]);
        if g < 0 {
            acc.push((keys[n - 1], seq![n - 1]))
        } else {
            acc.update(g, (acc[g].0, acc[g].1.push(n - 1)))
        }
    }
}

/// A linear scan that finds no match up to `j` agrees with
/// `spec_find_group`.
proof fn lemma_find_group_scan(groups: Seq<(Seq<char>, Seq<int>)>, key: Seq<char>, j: int)
    requires
        0 <= j <= groups.len(),
        forall|g: int| 0 <= g < j ==> (#[trigger] groups[g]).0 != key,
        j < groups.len() ==> groups[j].0 == key,
    ensures
        j < groups.len() ==> spec_find_group(groups, key) == j,
        j == groups.len() ==> spec_find_group(groups, key) == -1,
    decreases j + 1,
{
    if groups.len() == 0 {
    } else if j == 0 {
    } else {
        assert(groups[0].0 != key);
        lemma_find_group_scan(groups.skip(1), key, j - 1);
        assert(forall|g: int|
            0 <= g < j - 1 ==> (#[trigger] groups.skip(1)[g]).0 == groups[g + 1].0);
    }
}

/// The position of `key` among the group keys, first match wins.
fn find_key(group_keys: &Vec<String>, key: &String) -> (r: Option<usize>)
    ensures
        r matches Some(j) ==> j < group_keys@.len() && group_keys.deep_view()[j as int] == key@
            && (forall|g: int| 0 <= g < j ==> (#[trigger] group_keys.deep_view()[g]) != key@),
        r is None ==> (forall|g: int|
            0 <= g < group_keys@.len() ==> (#[trigger] group_keys.deep_view()[g]) != key@),
{
    let mut j: usize = 0;
    while j < group_keys.len()
        invariant
            j <= group_keys@.len(),
            forall|g: int| 0 <= g < j ==> (#[trigger] group_keys.deep_view()[g]) != key@,
        decreases group_keys@.len() - j,
    {
        if group_keys[j].eq(key) {
            return Some(j);
        }
        j = j + 1;
    }
    None
}

/// Groups the positions of `keys` by equal key: one group per distinct
/// key, in order of first occurrence, each holding its positions in
/// order.
pub fn group_indices_by_key(keys: &Vec<String>) -> (r: Vec<Vec<usize>>)
    ensures
        ({
            let folded = spec_group_fold(keys.deep_view(), keys@.len() as int);
            &&& r@.len() == folded.len()
            &&& forall|g: int|
                0 <= g < folded.len() ==> (#[trigger] r@[g])@.len() == folded[g].1.len()
            &&& forall|g: int, k: int|
                0 <= g < folded.len() && 0 <= k < folded[g].1.len() ==> (#[trigger] r@[g]@[k])
                    as int == folded[g].1[k]
        }),
{
    let ghost keyviews = keys.deep_view();
    let mut groups: Vec<Vec<usize>> = Vec::new();
    let mut group_keys: Vec<String> = Vec::new();
    let mut i: usize = 0;
    while i < keys.len()
        invariant
            keyviews == keys.deep_view(),
            keyviews.len() == keys@.len(),
            i <= keys@.len(),
            groups@.len() == group_keys@.len(),
            ({
                let folded = spec_group_fold(keyviews, i as int);
                &&& groups@.len() == folded.len()
                &&& forall|g: int|
                    0 <= g < folded.len() ==> (#[trigger] group_keys.deep_view()[g]) == folded[
                        g
                    ].0
                &&& forall|g: int|
                    0 <= g < folded.len() ==> (#[trigger] groups@[g])@.len() == folded[g].1.len()
                &&& forall|g: int, k: int|
                    0 <= g < folded.len() && 0 <= k < folded[g].1.len() ==> (
                    #[trigger] groups@[g]@[k]) as int == folded[g].1[k]
            }),
        decreases keys@.len() - i,
    {
        let ghost folded = spec_group_fold(keyviews, i as int);
        let key = keys[i].clone();
        let found = find_key(&group_keys, &key);
        proof {
            assert(forall|g: int|
                0 <= g < folded.len() ==> (#[trigger] folded[g]).0 == group_keys.deep_view()[g]);
            match found {
                Some(fj) => {
                    assert(folded[fj as int].0 == key@);
                    assert(forall|g: int| 0 <= g < fj ==> (#[trigger] folded[g]).0 != key@);
                    lemma_find_group_scan(folded, key@, fj as int);
                },
                None => {
                    assert(forall|g: int|
                        0 <= g < folded.len() ==> (#[trigger] folded[g]).0 != key@);
                    lemma_find_group_scan(folded, key@, folded.len() as int);
                },
            }
        }
        match found {
            Some(fj) => {
                groups[fj].push(i);
            },
            None => {
                group_keys.push(key);
                let mut group: Vec<usize> = Vec::new();
                group.push(i);
                groups.push(group);
            },
        }
        i = i + 1;
    }
    groups
}

} // verus!

use vstd::prelude::*;
use vstd::string::StringExecFns;

verus! {

pub const NO_ROM_STRING: &'static str = "norom";
pub const SKIP_BOOT_FLAG_STRING: &'static str = "skipboot";
pub const DEBUG_FLAG_STRING: &'static str = "debug";
pub const PRINT_CPU_FLAG_STRING: &'static str = "printcpu";

/// The command line: the ROM path (the first argument) and the flags given
/// among all the arguments.
pub struct EmuArgs {
    pub skip_boot: bool,
    pub debug_enabled: bool,
    pub print_cpu_instrs: bool,
    pub rom_filepath: String,
}

/// Whether one of the arguments is exactly the flag.
pub open spec fn has_arg(args: Seq<String>, flag: Seq<char>) -> bool {
    exists|i: int| 0 <= i < args.len() && #[trigger] args[i]@ == flag
}

/// Whether one of the arguments is exactly `flag`.
pub fn contains_arg(args: &Vec<String>, flag: &str) -> (r: bool)
    ensures
        r == has_arg(args@, flag@),
{
    let flag_string = String::from_str(flag);
    let mut i: usize = 0;
    while i < args.len()
        invariant
            i <= args@.len(),
            flag_string@ == flag@,
            forall|j: int| 0 <= j < i ==> args@[j]@ != flag@,
        decreases args@.len() - i,
    {
        if args[i] == flag_string {
            return true;
        }
        i += 1;
    }
    false
}

/// A directory entry as the ROM browser sees it: the bytes of its name, whether
/// it is a directory (links followed) and whether it is a symbolic link.
pub struct BrowserEntry {
    pub name: Vec<u8>,
    pub is_dir: bool,
    pub is_symlink: bool,
}

/// The bytes of ".zip".
pub open spec fn zip_marker() -> Seq<u8> {
    seq![0x2Eu8, 0x7Au8, 0x69u8, 0x70u8]
}

/// Whether a name holds ".zip" somewhere.
pub open spec fn holds_zip(name: Seq<u8>) -> bool {
    exists|i: int| 0 <= i && i + 4 <= name.len() && #[trigger] name.subrange(i, i + 4) == zip_marker()
}

/// Whether the browser lists an entry: every directory, and the files that are
/// neither symbolic links nor ".zip" archives.
pub open spec fn is_listed(e: BrowserEntry) -> bool {
    e.is_dir || (!e.is_symlink && !holds_zip(e.name@))
}

/// Byte-wise lexicographic order of names, compared from position `i` on.
pub open spec fn name_le_from(a: Seq<u8>, b: Seq<u8>, i: int) -> bool
    decreases a.len() - i,
{
    if i >= a.len() {
        true
    } else if i >= b.len() {
        false
    } else if a[i] != b[i] {
        a[i] < b[i]
    } else {
        name_le_from(a, b, i + 1)
    }
}

/// Byte-wise lexicographic order of names (a prefix comes first).
pub open spec fn name_le(a: Seq<u8>, b: Seq<u8>) -> bool {
    name_le_from(a, b, 0)
}

/// Entry `x` is listed before entry `y`: directories first, then by name, and
/// entries of equal name in their order in `entries`.
pub open spec fn listed_before(entries: Seq<BrowserEntry>, x: int, y: int) -> bool {
    let (ex, ey) = (entries[x], entries[y]);
    ||| ex.is_dir && !ey.is_dir
    ||| ex.is_dir == ey.is_dir && name_le(ex.name@, ey.name@) && ex.name@ != ey.name@
    ||| ex.is_dir == ey.is_dir && ex.name@ == ey.name@ && x < y
}

proof fn lemma_name_le_total(a: Seq<u8>, b: Seq<u8>, i: int)
    requires
        0 <= i,
    ensures
        name_le_from(a, b, i) || name_le_from(b, a, i),
    decreases a.len() - i,
{
    if i < a.len() && i < b.len() && a[i] == b[i] {
        lemma_name_le_total(a, b, i + 1);
    }
}

proof fn lemma_name_le_transitive(a: Seq<u8>, b: Seq<u8>, c: Seq<u8>, i: int)
    requires
        0 <= i,
        name_le_from(a, b, i),
        name_le_from(b, c, i),
    ensures
        name_le_from(a, c, i),
    decreases a.len() - i,
{
    if i < a.len() && i < b.len() && i < c.len() && a[i] == b[i] && b[i] == c[i] {
        lemma_name_le_transitive(a, b, c, i + 1);
    }
}

proof fn lemma_name_le_antisymmetric(a: Seq<u8>, b: Seq<u8>, i: int)
    requires
        0 <= i <= a.len(),
        i <= b.len(),
        name_le_from(a, b, i),
        name_le_from(b, a, i),
    ensures
        a.subrange(i, a.len() as int) == b.subrange(i, b.len() as int),
    decreases a.len() - i,
{
    if i < a.len() {
        lemma_name_le_antisymmetric(a, b, i + 1);
        assert(a.subrange(i, a.len() as int) =~= seq![a[i]] + a.subrange(i + 1, a.len() as int));
        assert(b.subrange(i, b.len() as int) =~= seq![b[i]] + b.subrange(i + 1, b.len() as int));
    } else {
        assert(a.subrange(i, a.len() as int) =~= Seq::<u8>::empty());
        assert(b.subrange(i, b.len() as int) =~= Seq::<u8>::empty());
    }
}

/// Two different positions are always listed one before the other.
proof fn lemma_listed_before_total(entries: Seq<BrowserEntry>, x: int, y: int)
    requires
        x != y,
    ensures
        listed_before(entries, x, y) || listed_before(entries, y, x),
{
    let (nx, ny) = (entries[x].name@, entries[y].name@);
    lemma_name_le_total(nx, ny, 0);
    if name_le(nx, ny) && name_le(ny, nx) {
        lemma_name_le_antisymmetric(nx, ny, 0);
        assert(nx =~= nx.subrange(0, nx.len() as int));
        assert(ny =~= ny.subrange(0, ny.len() as int));
    }
}

proof fn lemma_listed_before_transitive(entries: Seq<BrowserEntry>, x: int, y: int, z: int)
    requires
        listed_before(entries, x, y),
        listed_before(entries, y, z),
    ensures
        listed_before(entries, x, z),
{
    let (nx, ny, nz) = (entries[x].name@, entries[y].name@, entries[z].name@);
    let (dx, dy, dz) = (entries[x].is_dir, entries[y].is_dir, entries[z].is_dir);
    if dx == dy && dy == dz && nx != ny && ny != nz {
        lemma_name_le_transitive(nx, ny, nz, 0);
        if nx == nz {
            lemma_name_le_antisymmetric(nx, ny, 0);
            assert(nx =~= nx.subrange(0, nx.len() as int));
            assert(ny =~= ny.subrange(0, ny.len() as int));
        }
    }
}

/// Whether `r` is the ROM browser's listing of `entries`: each listed entry once,
/// in listing order.
pub open spec fn is_browser_listing(entries: Seq<BrowserEntry>, r: Seq<usize>) -> bool {
    &&& forall|i: int| 0 <= i < r.len() ==> r[i] < entries.len() && is_listed(#[trigger] entries[r[i] as int])
    &&& forall|j: int| 0 <= j < entries.len() && is_listed(#[trigger] entries[j]) ==> r.contains(j as usize)
    &&& forall|i: int, k: int| 0 <= i < k < r.len() ==> listed_before(entries, r[i] as int, r[k] as int)
}

/// Whether a name holds ".zip".
fn name_holds_zip(name: &Vec<u8>) -> (r: bool)
    ensures
        r == holds_zip(name@),
{
    if name.len() < 4 {
        return false;
    }
    let mut i: usize = 0;
    while i <= name.len() - 4
        invariant
            name@.len() >= 4,
            i <= name@.len() - 3,
            forall|j: int| 0 <= j < i ==> #[trigger] name@.subrange(j, j + 4) != zip_marker(),
        decreases name@.len() - i,
    {
        if name[i] == 0x2E && name[i + 1] == 0x7A && name[i + 2] == 0x69 && name[i + 3] == 0x70 {
            assert(name@.subrange(i as int, i + 4) =~= zip_marker());
            return true;
        }
        assert(name@.subrange(i as int, i + 4)[0] == name@[i as int]);
        assert(name@.subrange(i as int, i + 4)[1] == name@[i + 1]);
        assert(name@.subrange(i as int, i + 4)[2] == name@[i + 2]);
        assert(name@.subrange(i as int, i + 4)[3] == name@[i + 3]);
        i += 1;
    }
    false
}

/// Byte-wise lexicographic comparison of two names.
fn name_less_eq(a: &Vec<u8>, b: &Vec<u8>) -> (r: bool)
    ensures
        r == name_le(a@, b@),
{
    let mut i: usize = 0;
    while i < a.len() && i < b.len() && a[i] == b[i]
        invariant
            i <= a@.len(),
            i <= b@.len(),
            name_le(a@, b@) == name_le_from(a@, b@, i as int),
        decreases a@.len() - i,
    {
        i += 1;
    }
    if i >= a.len() {
        true
    } else if i >= b.len() {
        false
    } else {
        a[i] < b[i]
    }
}

/// Whether two names are equal.
fn name_equal(a: &Vec<u8>, b: &Vec<u8>) -> (r: bool)
    ensures
        r == (a@ == b@),
{
    if a.len() != b.len() {
        return false;
    }
    let mut i: usize = 0;
    while i < a.len()
        invariant
            a@.len() == b@.len(),
            i <= a@.len(),
            forall|j: int| 0 <= j < i ==> a@[j] == b@[j],
        decreases a@.len() - i,
    {
        if a[i] != b[i] {
            return false;
        }
        i += 1;
    }
    assert(a@ =~= b@);
    true
}

/// Whether entry `x` is listed before entry `y`.
fn is_listed_before(entries: &Vec<BrowserEntry>, x: usize, y: usize) -> (r: bool)
    requires
        x < entries@.len(),
        y < entries@.len(),
    ensures
        r == listed_before(entries@, x as int, y as int),
{
    let ex = &entries[x];
    let ey = &entries[y];
    if ex.is_dir != ey.is_dir {
        return ex.is_dir;
    }
    if name_equal(&ex.name, &ey.name) {
        x < y
    } else {
        name_less_eq(&ex.name, &ey.name)
    }
}

/// The ROM browser's listing of a directory's entries, as positions in
/// `entries`: the directories, then the files that are neither symbolic links
/// nor ".zip" archives, each group by name.
pub fn browser_listing(entries: &Vec<BrowserEntry>) -> (r: Vec<usize>)
    ensures
        is_browser_listing(entries@, r@),
{
    let mut r: Vec<usize> = Vec::new();
    let mut j: usize = 0;
    while j < entries.len()
        invariant
            j <= entries@.len(),
            forall|i: int| 0 <= i < r@.len() ==> #[trigger] r@[i] < j && is_listed(entries@[r@[i] as int]),
            forall|m: int| 0 <= m < j && is_listed(#[trigger] entries@[m]) ==> r@.contains(m as usize),
            forall|i: int, k: int| 0 <= i < k < r@.len() ==> listed_before(entries@, r@[i] as int, r@[k] as int),
        decreases entries@.len() - j,
    {
        let e = &entries[j];
        let listed = e.is_dir || (!e.is_symlink && !name_holds_zip(&e.name));
        if listed {
            // The first position whose entry comes after entry j.
            let mut p: usize = 0;
            while p < r.len() && !is_listed_before(entries, j, r[p])
                invariant
                    p <= r@.len(),
                    j < entries@.len(),
                    forall|i: int| 0 <= i < r@.len() ==> #[trigger] r@[i] < j,
                    forall|q: int| 0 <= q < p ==> !listed_before(entries@, j as int, #[trigger] r@[q] as int),
                decreases r@.len() - p,
            {
                p += 1;
            }
            proof {
                assert forall|q: int| 0 <= q < p implies listed_before(entries@, #[trigger] r@[q] as int, j as int) by {
                    lemma_listed_before_total(entries@, r@[q] as int, j as int);
                }
                assert forall|q: int| p <= q < r@.len() implies listed_before(entries@, j as int, #[trigger] r@[q] as int) by {
                    if q > p {
                        lemma_listed_before_transitive(entries@, j as int, r@[p as int] as int, r@[q] as int);
                    }
                }
            }
            let ghost old_r = r@;
            r.insert(p, j);
            proof {
                assert(r@ == old_r.insert(p as int, j));
                assert forall|i: int, k: int| 0 <= i < k < r@.len() implies
                    listed_before(entries@, r@[i] as int, r@[k] as int) by {
                    if i < p && k == p {
                    } else if i == p {
                        assert(r@[k] == old_r[k - 1]);
                    } else if k < p {
                        assert(r@[i] == old_r[i] && r@[k] == old_r[k]);
                    } else if i < p {
                        assert(r@[k] == old_r[k - 1]);
                    } else {
                        assert(r@[i] == old_r[i - 1] && r@[k] == old_r[k - 1]);
                    }
                }
                assert forall|m: int| 0 <= m <= j && is_listed(#[trigger] entries@[m]) implies r@.contains(m as usize) by {
                    if m == j {
                        assert(r@[p as int] == j);
                    } else {
                        assert(old_r.contains(m as usize));
                        let q = choose|q: int| 0 <= q < old_r.len() && old_r[q] == m as usize;
                        if q < p {
                            assert(r@[q] == m as usize);
                        } else {
                            assert(r@[q + 1] == m as usize);
                        }
                    }
                }
            }
        } else {
            proof {
                assert forall|m: int| 0 <= m <= j && is_listed(#[trigger] entries@[m]) implies r@.contains(m as usize) by {
                    if m == j {
                        assert(false);
                    }
                }
            }
        }
        j += 1;
    }
    r
}

/// What a selection in the ROM browser does.
#[derive(Clone, Copy, PartialEq, Eq, Structural, Debug)]
pub enum BrowserMove {
    /// Go up to the parent directory.
    Up,
    /// Going up from the ROM folder itself is not allowed.
    Refused,
    /// Open the listed entry at this position of the listing.
    Enter(usize),
    /// A number past the listing: stay.
    Stay,
}

/// The browser's answer to a selection (0 goes up, 1 to `listed` picks an
/// entry), in the ROM folder itself (`at_root`) and when the browser must stay
/// inside it (`is_contained`).
pub fn browser_move(selection: i32, at_root: bool, is_contained: bool, listed: usize) -> (m: BrowserMove)
    requires
        selection >= 0,
    ensures
        selection == 0 ==> m == (if is_contained && at_root { BrowserMove::Refused } else { BrowserMove::Up }),
        0 < selection <= listed ==> m == BrowserMove::Enter((selection - 1) as usize),
        selection > listed ==> m == BrowserMove::Stay,
{
    if selection == 0 {
        if is_contained && at_root {
            BrowserMove::Refused
        } else {
            BrowserMove::Up
        }
    } else if (selection as usize) <= listed {
        BrowserMove::Enter((selection - 1) as usize)
    } else {
        BrowserMove::Stay
    }
}

impl EmuArgs {
    /// Reads the command line (the program name first). Without arguments the
    /// ROM path is empty and no flag is set; else the ROM path is the first
    /// argument, and each flag is set when an argument equals it.
    pub fn parse_args(args: &Vec<String>) -> (r: EmuArgs)
        ensures
            args@.len() > 1 ==> r.rom_filepath@ == args@[1]@,
            args@.len() <= 1 ==> r.rom_filepath@ == Seq::<char>::empty(),
            r.skip_boot == (args@.len() > 1 && has_arg(args@, SKIP_BOOT_FLAG_STRING@)),
            r.debug_enabled == (args@.len() > 1 && has_arg(args@, DEBUG_FLAG_STRING@)),
            r.print_cpu_instrs == (args@.len() > 1 && has_arg(args@, PRINT_CPU_FLAG_STRING@)),
    {
        let mut rom_filepath = String::new();
        let mut skip_boot = false;
        let mut debug_enabled = false;
        let mut print_cpu_instrs = false;

        if args.len() > 1 {
            rom_filepath = args[1].clone();
            skip_boot = contains_arg(args, SKIP_BOOT_FLAG_STRING);
            debug_enabled = contains_arg(args, DEBUG_FLAG_STRING);
            print_cpu_instrs = contains_arg(args, PRINT_CPU_FLAG_STRING);
        }

        EmuArgs { rom_filepath, skip_boot, debug_enabled, print_cpu_instrs }
    }
}

} // verus!

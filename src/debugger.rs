//! State of the interactive debugger: breakpoints, pause and stepping flags.
//! Reading commands and printing stay with the host.
use vstd::prelude::*;

verus! {

/// A parsed debugger command: its name and arguments.
pub struct Command {
    pub name: String,
    pub args: Vec<String>,
}

impl Command {
    pub fn new_command(n: String) -> (r: Command)
        ensures
            r.name@ == n@,
            r.args@.len() == 0,
    {
        Command { name: n, args: Vec::new() }
    }
}

/// The debugger's commands, each typed as its first letter.
#[derive(Clone, Copy, PartialEq, Eq, Structural, Debug)]
pub enum CommandKind {
    Breakpoint,
    Continue,
    Help,
    Tileset,
    Dump,
    ValueBreakpoint,
    Print,
    Step,
}

impl CommandKind {
    pub fn from_letter(c: char) -> (r: Option<CommandKind>)
        ensures
            c == 'b' ==> r == Some(CommandKind::Breakpoint),
            c == 'c' ==> r == Some(CommandKind::Continue),
            c == 'h' ==> r == Some(CommandKind::Help),
            c == 't' ==> r == Some(CommandKind::Tileset),
            c == 'd' ==> r == Some(CommandKind::Dump),
            c == 'v' ==> r == Some(CommandKind::ValueBreakpoint),
            c == 'p' ==> r == Some(CommandKind::Print),
            c == 's' ==> r == Some(CommandKind::Step),
            c != 'b' && c != 'c' && c != 'h' && c != 't' && c != 'd' && c != 'v' && c != 'p'
                && c != 's' ==> r == None::<CommandKind>,
    {
        match c {
            'b' => Some(CommandKind::Breakpoint),
            'c' => Some(CommandKind::Continue),
            'h' => Some(CommandKind::Help),
            't' => Some(CommandKind::Tileset),
            'd' => Some(CommandKind::Dump),
            'v' => Some(CommandKind::ValueBreakpoint),
            'p' => Some(CommandKind::Print),
            's' => Some(CommandKind::Step),
            _ => None,
        }
    }

    /// The command's full name.
    pub fn name(&self) -> (r: &'static str)
        ensures
            *self == CommandKind::Breakpoint ==> r@ == "breakpoint"@,
            *self == CommandKind::Continue ==> r@ == "continue"@,
            *self == CommandKind::Help ==> r@ == "help"@,
            *self == CommandKind::Tileset ==> r@ == "tileset"@,
            *self == CommandKind::Dump ==> r@ == "dump"@,
            *self == CommandKind::ValueBreakpoint ==> r@ == "value_bp"@,
            *self == CommandKind::Print ==> r@ == "print"@,
            *self == CommandKind::Step ==> r@ == "step"@,
    {
        match self {
            CommandKind::Breakpoint => "breakpoint",
            CommandKind::Continue => "continue",
            CommandKind::Help => "help",
            CommandKind::Tileset => "tileset",
            CommandKind::Dump => "dump",
            CommandKind::ValueBreakpoint => "value_bp",
            CommandKind::Print => "print",
            CommandKind::Step => "step",
        }
    }
}

/// The value of the ASCII digit `c` in base `radix` (10 or 16), if it is one;
/// hexadecimal digits may be upper or lower case.
pub open spec fn digit_value(c: u8, radix: nat) -> Option<nat> {
    if 0x30 <= c <= 0x39 {
        Some((c - 0x30) as nat)
    } else if radix == 16 && 0x61 <= c <= 0x66 {
        Some((c - 0x61 + 10) as nat)
    } else if radix == 16 && 0x41 <= c <= 0x46 {
        Some((c - 0x41 + 10) as nat)
    } else {
        None
    }
}

/// The value of the digits `s` in base `radix`, read after the value `acc`; `None`
/// if a byte is not a digit.
pub open spec fn fold_digits(s: Seq<u8>, radix: nat, acc: nat) -> Option<nat>
    decreases s.len(),
{
    if s.len() == 0 {
        Some(acc)
    } else {
        match digit_value(s[0], radix) {
            Some(d) => fold_digits(s.subrange(1, s.len() as int), radix, acc * radix + d),
            None => None,
        }
    }
}

/// The number that `s` spells: "0x" then hexadecimal digits, or decimal digits;
/// at least one digit.
pub open spec fn number_value(s: Seq<u8>) -> Option<nat> {
    let hex = s.len() >= 2 && s[0] == 0x30 && s[1] == 0x78;
    let digits = if hex { s.subrange(2, s.len() as int) } else { s };
    if digits.len() == 0 {
        None
    } else {
        fold_digits(digits, if hex { 16 } else { 10 }, 0)
    }
}

/// Reading more digits never lowers the value.
proof fn lemma_fold_at_least(s: Seq<u8>, radix: nat, acc: nat)
    requires
        radix >= 1,
    ensures
        fold_digits(s, radix, acc) matches Some(v) ==> v >= acc,
    decreases s.len(),
{
    if s.len() > 0 {
        if let Some(d) = digit_value(s[0], radix) {
            assert(acc * radix + d >= acc) by (nonlinear_arith)
                requires
                    radix >= 1,
            ;
            lemma_fold_at_least(s.subrange(1, s.len() as int), radix, acc * radix + d);
        }
    }
}

fn digit_of(c: u8, radix: u32) -> (r: Option<u32>)
    ensures
        r == (match digit_value(c, radix as nat) {
            Some(d) => Some(d as u32),
            None => None::<u32>,
        }),
        r matches Some(d) ==> d < 16,
{
    if 0x30 <= c && c <= 0x39 {
        Some((c - 0x30) as u32)
    } else if radix == 16 && 0x61 <= c && c <= 0x66 {
        Some((c - 0x61 + 10) as u32)
    } else if radix == 16 && 0x41 <= c && c <= 0x46 {
        Some((c - 0x41 + 10) as u32)
    } else {
        None
    }
}

/// Parses a debugger address or value argument: "0x" and hexadecimal digits, or
/// decimal digits. `None` when it is malformed or above 0xFFFF.
pub fn string_to_decimal(number: &[u8]) -> (r: Option<u16>)
    ensures
        r == (match number_value(number@) {
            Some(v) => if v <= 0xFFFF {
                Some(v as u16)
            } else {
                None::<u16>
            },
            None => None::<u16>,
        }),
{
    let n = number.len();
    let hex = n >= 2 && number[0] == 0x30 && number[1] == 0x78;
    let start: usize = if hex { 2 } else { 0 };
    let radix: u32 = if hex { 16 } else { 10 };
    let ghost digits = number@.subrange(start as int, n as int);
    proof {
        if !hex {
            assert(digits =~= number@);
        }
    }
    if start == n {
        return None;
    }
    let mut acc: u32 = 0;
    let mut i: usize = start;
    proof {
        assert(digits.len() > 0);
        assert(number_value(number@) == fold_digits(digits, radix as nat, 0));
    }
    while i < n
        invariant
            start <= i <= n,
            number_value(number@) == fold_digits(digits, radix as nat, 0),
            n == number@.len(),
            radix == 10 || radix == 16,
            acc <= 0xFFFF,
            fold_digits(number@.subrange(i as int, n as int), radix as nat, acc as nat)
                == fold_digits(digits, radix as nat, 0),
        decreases n - i,
    {
        let ghost rest = number@.subrange(i as int, n as int);
        proof {
            assert(rest.subrange(1, rest.len() as int) =~= number@.subrange(i + 1, n as int));
        }
        let d = match digit_of(number[i], radix) {
            Some(d) => d,
            None => {
                assert(rest[0] == number@[i as int]);
                return None;
            },
        };
        let next = acc * radix + d;
        assert(rest[0] == number@[i as int]);
        if next > 0xFFFF {
            proof {
                lemma_fold_at_least(number@.subrange(i + 1, n as int), radix as nat, next as nat);
            }
            return None;
        }
        acc = next;
        i = i + 1;
    }
    proof {
        assert(number@.subrange(n as int, n as int).len() == 0);
    }
    Some(acc as u16)
}

/// How many bytes of a memory dump of `length` bytes from `start` lie inside the
/// 16-bit address space.
pub fn dump_length(start: u32, length: u32) -> (r: u32)
    ensures
        start > 0xFFFF ==> r == 0,
        start <= 0xFFFF ==> r == if length <= 0x10000 - start { length } else { (0x10000 - start) as u32 },
{
    if start > 0xFFFF {
        0
    } else if length <= 0x10000 - start {
        length
    } else {
        0x10000 - start
    }
}

/// No value occurs twice in `s`.
pub open spec fn no_duplicates(s: Seq<u16>) -> bool {
    forall|i: int, j: int| 0 <= i < j < s.len() ==> s[i] != s[j]
}

pub struct Debugger {
    breakpoints: Vec<u16>,
    value_bp_de: Vec<u16>,
    paused: bool,
    view_tileset: bool,
    stepping: bool,
}

impl Debugger {
    /// The address breakpoints, in the order they were added; no address twice.
    pub closed spec fn breakpoints(&self) -> Seq<u16> {
        self.breakpoints@
    }

    /// The values of DE that pause execution.
    pub closed spec fn value_breakpoints(&self) -> Seq<u16> {
        self.value_bp_de@
    }

    pub closed spec fn is_paused(&self) -> bool {
        self.paused
    }

    pub closed spec fn is_viewing_tileset(&self) -> bool {
        self.view_tileset
    }

    pub closed spec fn is_stepping(&self) -> bool {
        self.stepping
    }

    /// No address breakpoint is listed twice.
    pub closed spec fn wf(&self) -> bool {
        no_duplicates(self.breakpoints@)
    }

    pub fn new_debugger() -> (r: Debugger)
        ensures
            r.wf(),
            r.breakpoints().len() == 0,
            r.value_breakpoints().len() == 0,
            !r.is_paused() && !r.is_viewing_tileset() && !r.is_stepping(),
    {
        Debugger {
            breakpoints: Vec::new(),
            value_bp_de: Vec::new(),
            paused: false,
            view_tileset: false,
            stepping: false,
        }
    }

    pub fn start_paused(&mut self)
        ensures
            final(self).is_paused(),
            final(self).breakpoints() == old(self).breakpoints(),
            final(self).value_breakpoints() == old(self).value_breakpoints(),
            final(self).is_viewing_tileset() == old(self).is_viewing_tileset(),
            final(self).is_stepping() == old(self).is_stepping(),
            final(self).wf() == old(self).wf(),
    {
        self.paused = true;
    }

    pub fn viewing_tileset(&self) -> (r: bool)
        ensures
            r == self.is_viewing_tileset(),
    {
        self.view_tileset
    }

    pub fn set_paused(&mut self, new: bool)
        ensures
            final(self).is_paused() == new,
            final(self).breakpoints() == old(self).breakpoints(),
            final(self).value_breakpoints() == old(self).value_breakpoints(),
            final(self).is_viewing_tileset() == old(self).is_viewing_tileset(),
            final(self).is_stepping() == old(self).is_stepping(),
            final(self).wf() == old(self).wf(),
    {
        self.paused = new;
    }

    pub fn is_a_breakpoint(&self, bp: u16) -> (r: bool)
        ensures
            r == self.breakpoints().contains(bp),
    {
        contains(&self.breakpoints, bp)
    }

    pub fn is_a_de_val_bp(&self, val: u16) -> (r: bool)
        ensures
            r == self.value_breakpoints().contains(val),
    {
        contains(&self.value_bp_de, val)
    }

    /// Adds a breakpoint at `bp`; returns its index, or -1 when one is already there.
    pub fn add_breakpoint(&mut self, bp: u16) -> (r: i16)
        requires
            old(self).wf(),
            old(self).breakpoints().len() < 0x7FFF,
        ensures
            final(self).wf(),
            old(self).breakpoints().contains(bp) ==> r == -1 && final(self).breakpoints()
                == old(self).breakpoints(),
            !old(self).breakpoints().contains(bp) ==> r == old(self).breakpoints().len()
                && final(self).breakpoints() == old(self).breakpoints().push(bp),
            final(self).value_breakpoints() == old(self).value_breakpoints(),
            final(self).is_paused() == old(self).is_paused(),
            final(self).is_viewing_tileset() == old(self).is_viewing_tileset(),
            final(self).is_stepping() == old(self).is_stepping(),
    {
        if self.is_a_breakpoint(bp) {
            return -1;
        }
        self.breakpoints.push(bp);
        (self.breakpoints.len() - 1) as i16
    }

    /// Removes the breakpoint at `bp`; returns the index it had, or -1 when there was none.
    pub fn remove_breakpoint(&mut self, bp: u16) -> (r: i16)
        requires
            old(self).wf(),
            old(self).breakpoints().len() <= 0x7FFF,
        ensures
            final(self).wf(),
            !old(self).breakpoints().contains(bp) ==> r == -1 && final(self).breakpoints()
                == old(self).breakpoints(),
            old(self).breakpoints().contains(bp) ==> 0 <= r < old(self).breakpoints().len()
                && old(self).breakpoints()[r as int] == bp && final(self).breakpoints()
                == old(self).breakpoints().remove(r as int),
            final(self).value_breakpoints() == old(self).value_breakpoints(),
            final(self).is_paused() == old(self).is_paused(),
            final(self).is_viewing_tileset() == old(self).is_viewing_tileset(),
            final(self).is_stepping() == old(self).is_stepping(),
    {
        let mut i: usize = 0;
        while i < self.breakpoints.len()
            invariant
                i <= self.breakpoints@.len(),
                self.breakpoints@.len() <= 0x7FFF,
                old(self).wf(),
                self.breakpoints@ == old(self).breakpoints@,
                self.value_bp_de@ == old(self).value_bp_de@,
                self.paused == old(self).paused,
                self.view_tileset == old(self).view_tileset,
                self.stepping == old(self).stepping,
                forall|j: int| 0 <= j < i ==> self.breakpoints@[j] != bp,
            decreases self.breakpoints@.len() - i,
        {
            if self.breakpoints[i] == bp {
                self.breakpoints.remove(i);
                proof {
                    let old_bps = old(self).breakpoints@;
                    let new_bps = self.breakpoints@;
                    assert forall|a: int, b: int| 0 <= a < b < new_bps.len() implies new_bps[a]
                        != new_bps[b] by {
                        let a2 = if a < i { a } else { a + 1 };
                        let b2 = if b < i { b } else { b + 1 };
                        assert(new_bps[a] == old_bps[a2]);
                        assert(new_bps[b] == old_bps[b2]);
                    }
                }
                return i as i16;
            }
            i = i + 1;
        }
        -1
    }

    /// Adds a pause on the value `val` of register pair DE.
    pub fn add_value_breakpoint(&mut self, val: u16)
        ensures
            final(self).value_breakpoints() == old(self).value_breakpoints().push(val),
            final(self).breakpoints() == old(self).breakpoints(),
            final(self).is_paused() == old(self).is_paused(),
            final(self).is_viewing_tileset() == old(self).is_viewing_tileset(),
            final(self).is_stepping() == old(self).is_stepping(),
            final(self).wf() == old(self).wf(),
    {
        self.value_bp_de.push(val);
    }

    /// Switches between the tileset view and the screen.
    pub fn toggle_tileset(&mut self)
        ensures
            final(self).is_viewing_tileset() == !old(self).is_viewing_tileset(),
            final(self).breakpoints() == old(self).breakpoints(),
            final(self).value_breakpoints() == old(self).value_breakpoints(),
            final(self).is_paused() == old(self).is_paused(),
            final(self).is_stepping() == old(self).is_stepping(),
            final(self).wf() == old(self).wf(),
    {
        self.view_tileset = !self.view_tileset;
    }

    /// Leaves pause and step mode.
    pub fn resume(&mut self)
        ensures
            !final(self).is_paused() && !final(self).is_stepping(),
            final(self).breakpoints() == old(self).breakpoints(),
            final(self).value_breakpoints() == old(self).value_breakpoints(),
            final(self).is_viewing_tileset() == old(self).is_viewing_tileset(),
            final(self).wf() == old(self).wf(),
    {
        self.paused = false;
        self.stepping = false;
    }

    /// Enters step mode.
    pub fn start_stepping(&mut self)
        ensures
            final(self).is_stepping(),
            final(self).is_paused() == old(self).is_paused(),
            final(self).breakpoints() == old(self).breakpoints(),
            final(self).value_breakpoints() == old(self).value_breakpoints(),
            final(self).is_viewing_tileset() == old(self).is_viewing_tileset(),
            final(self).wf() == old(self).wf(),
    {
        self.stepping = true;
    }

    pub fn stepping(&self) -> (r: bool)
        ensures
            r == self.is_stepping(),
    {
        self.stepping
    }

    /// The address breakpoints, in the order they were added.
    pub fn breakpoint_list(&self) -> (r: &Vec<u16>)
        ensures
            r@ == self.breakpoints(),
    {
        &self.breakpoints
    }

    /// Whether the machine runs freely, neither paused nor stepping.
    pub fn is_running(&self) -> (r: bool)
        ensures
            r == (!self.is_paused() && !self.is_stepping()),
    {
        !self.paused && !self.stepping
    }

    /// While running freely: pauses when the program counter `pc` is at a breakpoint
    /// or DE holds `de`, a value breakpoint. Returns whether it paused.
    pub fn check_breakpoints(&mut self, pc: u16, de: u16) -> (r: bool)
        ensures
            r == (!old(self).is_paused() && !old(self).is_stepping() && (old(self).breakpoints().contains(pc)
                || old(self).value_breakpoints().contains(de))),
            final(self).is_paused() == (old(self).is_paused() || r),
            final(self).breakpoints() == old(self).breakpoints(),
            final(self).value_breakpoints() == old(self).value_breakpoints(),
            final(self).is_viewing_tileset() == old(self).is_viewing_tileset(),
            final(self).is_stepping() == old(self).is_stepping(),
            final(self).wf() == old(self).wf(),
    {
        if self.paused || self.stepping {
            return false;
        }
        if self.is_a_breakpoint(pc) || self.is_a_de_val_bp(de) {
            self.paused = true;
            true
        } else {
            false
        }
    }
}

fn contains(v: &Vec<u16>, x: u16) -> (r: bool)
    ensures
        r == v@.contains(x),
{
    let mut i: usize = 0;
    while i < v.len()
        invariant
            i <= v@.len(),
            forall|j: int| 0 <= j < i ==> v@[j] != x,
        decreases v@.len() - i,
    {
        if v[i] == x {
            assert(v@[i as int] == x);
            return true;
        }
        i = i + 1;
    }
    false
}

} // verus!

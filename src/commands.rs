//! The user's own command list: a text of `title=command` lines, each of
//! which becomes a menu entry that runs its command through the shell.
//!
//! Lines are separated by `'\n'`. An empty line is skipped. Any other line
//! splits at its first `'='` into a title and a command, both non-empty.
use vstd::prelude::*;
use crate::invocation::{Invocation, InvocationView};
use vstd::string::StrSliceExecFns;

verus! {

/// One entry of the user's command list.
pub struct UserCommand {
    pub title: String,
    pub command: String,
}

/// The abstract value of a [`UserCommand`].
pub ghost struct UserCommandView {
    pub title: Seq<char>,
    pub command: Seq<char>,
}

impl View for UserCommand {
    type V = UserCommandView;

    open spec fn view(&self) -> UserCommandView {
        UserCommandView { title: self.title@, command: self.command@ }
    }
}

/// Why a command list was refused; `line` counts from 1.
#[derive(Clone, Copy, Debug, PartialEq, Eq, Structural)]
pub enum ListError {
    /// A non-empty line holds no `'='`.
    MissingSeparator { line: usize },
    /// A line starts with `'='`.
    EmptyTitle { line: usize },
    /// A line ends at its first `'='`.
    EmptyCommand { line: usize },
}

/// The first position at or after `from` where `s` holds `c`, or `s.len()`.
pub open spec fn find_from(s: Seq<char>, c: char, from: nat) -> nat
    decreases s.len() - from,
{
    if from >= s.len() {
        s.len()
    } else if s[from as int] == c {
        from
    } else {
        find_from(s, c, from + 1)
    }
}

proof fn lemma_find_from(s: Seq<char>, c: char, from: nat)
    requires
        from <= s.len(),
    ensures
        from <= find_from(s, c, from) <= s.len(),
        find_from(s, c, from) < s.len() ==> s[find_from(s, c, from) as int] == c,
        forall|j: int| from <= j < find_from(s, c, from) ==> s[j] != c,
    decreases s.len() - from,
{
    if from < s.len() && s[from as int] != c {
        lemma_find_from(s, c, from + 1);
    }
}

/// The entry one non-empty line stands for, or why it is refused.
pub open spec fn parse_line(line: Seq<char>, line_no: nat) -> Result<UserCommandView, ListError> {
    let k = find_from(line, '=', 0);
    if k == line.len() {
        Err(ListError::MissingSeparator { line: line_no as usize })
    } else if k == 0 {
        Err(ListError::EmptyTitle { line: line_no as usize })
    } else if k + 1 == line.len() {
        Err(ListError::EmptyCommand { line: line_no as usize })
    } else {
        Ok(UserCommandView { title: line.subrange(0, k as int), command: line.subrange(k + 1 as int, line.len() as int) })
    }
}

/// `acc` followed by the entries of `rest`, or the error of `rest`.
pub open spec fn prepend(acc: Seq<UserCommandView>, rest: Result<Seq<UserCommandView>, ListError>) -> Result<Seq<UserCommandView>, ListError> {
    match rest {
        Ok(cs) => Ok(acc + cs),
        Err(e) => Err(e),
    }
}

proof fn lemma_prepend_prepend(a: Seq<UserCommandView>, b: Seq<UserCommandView>, rest: Result<Seq<UserCommandView>, ListError>)
    ensures
        prepend(a, prepend(b, rest)) == prepend(a + b, rest),
{
    if let Ok(cs) = rest {
        assert(a + (b + cs) =~= (a + b) + cs);
    }
}

/// The entries of the lines of `s` from position `start` on, the first of
/// them being line `line_no`; or the error of the first line refused.
pub open spec fn parse_from(s: Seq<char>, start: nat, line_no: nat) -> Result<Seq<UserCommandView>, ListError>
    decreases s.len() - start,
    via parse_from_decreases
{
    if start > s.len() {
        Ok(seq![])
    } else {
        let end = find_from(s, '\n', start);
        let line = s.subrange(start as int, end as int);
        let rest = if end < s.len() {
            parse_from(s, end + 1, line_no + 1)
        } else {
            Ok(seq![])
        };
        if line.len() == 0 {
            rest
        } else {
            match parse_line(line, line_no) {
                Err(e) => Err(e),
                Ok(c) => prepend(seq![c], rest),
            }
        }
    }
}

#[via_fn]
proof fn parse_from_decreases(s: Seq<char>, start: nat, line_no: nat) {
    if start <= s.len() {
        lemma_find_from(s, '\n', start);
    }
}

/// The entries of a whole command list, or the error of its first refused line.
pub open spec fn parse_list(s: Seq<char>) -> Result<Seq<UserCommandView>, ListError> {
    parse_from(s, 0, 1)
}

proof fn lemma_refused_from(s: Seq<char>, pos: nat, len: nat, start: nat, line_no: nat)
    requires
        start <= pos,
        pos + len <= s.len(),
        len > 0,
        start == 0 || s[start - 1] == '\n',
        pos == 0 || s[pos - 1] == '\n',
        forall|j: int| pos <= j < pos + len ==> s[j] != '\n',
        pos + len == s.len() || s[(pos + len) as int] == '\n',
        parse_line(s.subrange(pos as int, (pos + len) as int), 1) is Err,
    ensures
        parse_from(s, start, line_no) is Err,
    decreases pos - start,
{
    lemma_find_from(s, '\n', start);
    let end = find_from(s, '\n', start);
    if start == pos {
        if end < pos + len {
            assert(s[end as int] == '\n');
        }
        if end > pos + len {
            assert(s[(pos + len) as int] == '\n');
        }
        assert(end == pos + len);
        lemma_line_refusal_any_number(s.subrange(pos as int, (pos + len) as int), 1, line_no);
    } else {
        assert(s[pos - 1] == '\n');
        assert(end <= pos - 1);
        lemma_refused_from(s, pos, len, end + 1, line_no + 1);
    }
}

proof fn lemma_line_refusal_any_number(line: Seq<char>, a: nat, b: nat)
    ensures
        parse_line(line, a) is Err <==> parse_line(line, b) is Err,
{
}

/// A list with a refused line is refused as a whole: wherever a non-empty
/// line that is not a valid entry stands, reading the list gives an error,
/// never a shorter list.
pub proof fn lemma_refused_line_refuses_list(before: Seq<char>, line: Seq<char>, after: Seq<char>)
    requires
        before.len() == 0 || before.last() == '\n',
        line.len() > 0,
        !line.contains('\n'),
        parse_line(line, 1) is Err,
        after.len() == 0 || after[0] == '\n',
    ensures
        parse_list(before + line + after) is Err,
{
    let s = before + line + after;
    let pos = before.len();
    assert(s.subrange(pos as int, (pos + line.len()) as int) =~= line);
    assert forall|j: int| pos <= j < pos + line.len() implies s[j] != '\n' by {
        assert(s[j] == line[j - pos]);
    }
    if pos + line.len() < s.len() {
        assert(s[(pos + line.len()) as int] == after[0]);
    }
    lemma_refused_from(s, pos, line.len(), 0, 1);
}

/// The abstract values of a list of commands.
pub open spec fn commands_view(v: Seq<UserCommand>) -> Seq<UserCommandView> {
    v.map_values(|c: UserCommand| c@)
}

fn find_char(s: &str, c: char, from: usize, n: usize) -> (r: usize)
    requires
        n == s@.len(),
        from <= n,
    ensures
        r == find_from(s@, c, from as nat),
        r <= n,
{
    proof {
        lemma_find_from(s@, c, from as nat);
    }
    let mut i: usize = from;
    while i < n
        invariant
            n == s@.len(),
            from <= i <= n,
            find_from(s@, c, from as nat) == find_from(s@, c, i as nat),
        decreases n - i,
    {
        if s.get_char(i) == c {
            return i;
        }
        i = i + 1;
    }
    i
}

fn parse_one_line(line: &str, line_no: usize) -> (r: Result<UserCommand, ListError>)
    requires
        line@.len() > 0,
    ensures
        match r {
            Ok(c) => parse_line(line@, line_no as nat) == Ok::<UserCommandView, ListError>(c@),
            Err(e) => parse_line(line@, line_no as nat) == Err::<UserCommandView, ListError>(e),
        },
{
    let n = line.unicode_len();
    let k = find_char(line, '=', 0, n);
    if k == n {
        Err(ListError::MissingSeparator { line: line_no })
    } else if k == 0 {
        Err(ListError::EmptyTitle { line: line_no })
    } else if k + 1 == n {
        Err(ListError::EmptyCommand { line: line_no })
    } else {
        let title = String::from_str(line.substring_char(0, k));
        let command = String::from_str(line.substring_char(k + 1, n));
        Ok(UserCommand { title, command })
    }
}

/// Reads a command list. Succeeds exactly when every non-empty line holds a
/// non-empty title, a `'='` and a non-empty command; otherwise reports the
/// first line that does not.
pub fn parse_command_list(text: &str) -> (r: Result<Vec<UserCommand>, ListError>)
    requires
        text@.len() < usize::MAX,
    ensures
        match r {
            Ok(cs) => parse_list(text@) == Ok::<Seq<UserCommandView>, ListError>(commands_view(cs@)),
            Err(e) => parse_list(text@) == Err::<Seq<UserCommandView>, ListError>(e),
        },
{
    let n = text.unicode_len();
    let mut acc: Vec<UserCommand> = Vec::new();
    let mut start: usize = 0;
    let mut line_no: usize = 1;
    loop
        invariant
            n == text@.len(),
            n < usize::MAX,
            start <= n,
            1 <= line_no <= start + 1,
            parse_list(text@) == prepend(commands_view(acc@), parse_from(text@, start as nat, line_no as nat)),
        decreases n - start,
    {
        let end = find_char(text, '\n', start, n);
        proof {
            lemma_find_from(text@, '\n', start as nat);
        }
        let ghost before = commands_view(acc@);
        let ghost line_view = text@.subrange(start as int, end as int);
        if end > start {
            let line = text.substring_char(start, end);
            match parse_one_line(line, line_no) {
                Err(e) => {
                    return Err(e);
                },
                Ok(c) => {
                    acc.push(c);
                    assert(commands_view(acc@) =~= before + seq![c@]);
                },
            }
        }
        let ghost added = commands_view(acc@).subrange(before.len() as int, commands_view(acc@).len() as int);
        let ghost rest = if end < n {
            parse_from(text@, end as nat + 1, line_no as nat + 1)
        } else {
            Ok(seq![])
        };
        proof {
            assert(before + added =~= commands_view(acc@));
            if end == start {
                assert(added =~= seq![]);
                if let Ok(cs) = rest {
                    assert(added + cs =~= cs);
                }
            } else {
                assert(parse_line(line_view, line_no as nat) == Ok::<UserCommandView, ListError>(added[0]));
                assert(added =~= seq![added[0]]);
            }
            assert(parse_from(text@, start as nat, line_no as nat) == prepend(added, rest));
            lemma_prepend_prepend(before, added, rest);
        }
        if end == n {
            assert(commands_view(acc@) + seq![] =~= commands_view(acc@));
            return Ok(acc);
        }
        start = end + 1;
        line_no = line_no + 1;
    }
}

/// Why the user's command list could not be used at startup.
#[derive(Clone, Copy, Debug, PartialEq, Eq, Structural)]
pub enum LoadError {
    /// The file is missing or could not be read as text.
    Unreadable,
    /// The file was read but a line of it is refused.
    Malformed(ListError),
}

/// The user's commands from the contents of the command list file, `None`
/// standing for a file that could not be read. Either problem is reported,
/// never passed over.
pub fn load_command_list(contents: Option<&str>) -> (r: Result<Vec<UserCommand>, LoadError>)
    requires
        contents is Some ==> contents->0@.len() < usize::MAX,
    ensures
        contents is None ==> r == Err::<Vec<UserCommand>, LoadError>(LoadError::Unreadable),
        contents is Some ==> match r {
            Ok(cs) => parse_list(contents->0@) == Ok::<Seq<UserCommandView>, ListError>(commands_view(cs@)),
            Err(LoadError::Malformed(e)) => parse_list(contents->0@) == Err::<Seq<UserCommandView>, ListError>(e),
            Err(LoadError::Unreadable) => false,
        },
{
    match contents {
        None => Err(LoadError::Unreadable),
        Some(text) => match parse_command_list(text) {
            Ok(cs) => Ok(cs),
            Err(e) => Err(LoadError::Malformed(e)),
        },
    }
}

/// The ten decimal digits, in order.
pub open spec fn digit_chars() -> Seq<char> {
    seq!['0', '1', '2', '3', '4', '5', '6', '7', '8', '9']
}

/// The decimal numeral of `n`, without leading zeros.
pub open spec fn decimal(n: nat) -> Seq<char>
    decreases n,
{
    if n < 10 {
        seq![digit_chars()[n as int]]
    } else {
        decimal(n / 10) + seq![digit_chars()[(n % 10) as int]]
    }
}

/// The prefix shared by the menu identifiers of the user's commands.
pub open spec fn user_id_prefix() -> Seq<char> {
    "user_command_"@
}

/// The menu identifier of the user's command at `index`.
pub open spec fn user_item_id(index: nat) -> Seq<char> {
    user_id_prefix() + decimal(index)
}

/// The shell invocation that runs `command`.
pub open spec fn shell_invocation(command: Seq<char>) -> InvocationView {
    InvocationView { program: "sh"@, args: seq!["-c"@, command] }
}

proof fn lemma_decimal_len(n: nat)
    ensures
        decimal(n).len() >= 1,
        n >= 10 ==> decimal(n).len() >= 2,
    decreases n,
{
    if n >= 10 {
        lemma_decimal_len(n / 10);
    }
}

proof fn lemma_decimal_injective(a: nat, b: nat)
    ensures
        decimal(a) == decimal(b) ==> a == b,
    decreases a,
{
    lemma_decimal_len(a);
    lemma_decimal_len(b);
    if decimal(a) == decimal(b) {
        if a < 10 && b < 10 {
            assert(decimal(a)[0] == decimal(b)[0]);
        } else if a >= 10 && b >= 10 {
            let da = decimal(a);
            assert(da[da.len() - 1] == digit_chars()[(a % 10) as int]);
            assert(da[da.len() - 1] == digit_chars()[(b % 10) as int]);
            assert(decimal(a / 10) =~= da.drop_last());
            assert(decimal(b / 10) =~= da.drop_last());
            lemma_decimal_injective(a / 10, b / 10);
        }
    }
}

/// Distinct positions in the command list get distinct menu identifiers,
/// and each of them begins with `u`.
pub proof fn lemma_user_ids_distinct(i: nat, j: nat)
    ensures
        user_item_id(i) == user_item_id(j) ==> i == j,
        user_item_id(i)[0] == 'u',
{
    reveal_strlit("user_command_");
    let p = user_id_prefix();
    if user_item_id(i) == user_item_id(j) {
        assert(decimal(i) =~= user_item_id(i).subrange(p.len() as int, user_item_id(i).len() as int));
        assert(decimal(j) =~= user_item_id(j).subrange(p.len() as int, user_item_id(j).len() as int));
        lemma_decimal_injective(i, j);
    }
}

fn digit_str(d: usize) -> (r: &'static str)
    requires
        d < 10,
    ensures
        r@ == seq![digit_chars()[d as int]],
{
    match d {
        0 => {
            proof {
                reveal_strlit("0");
            }
            "0"
        },
        1 => {
            proof {
                reveal_strlit("1");
            }
            "1"
        },
        2 => {
            proof {
                reveal_strlit("2");
            }
            "2"
        },
        3 => {
            proof {
                reveal_strlit("3");
            }
            "3"
        },
        4 => {
            proof {
                reveal_strlit("4");
            }
            "4"
        },
        5 => {
            proof {
                reveal_strlit("5");
            }
            "5"
        },
        6 => {
            proof {
                reveal_strlit("6");
            }
            "6"
        },
        7 => {
            proof {
                reveal_strlit("7");
            }
            "7"
        },
        8 => {
            proof {
                reveal_strlit("8");
            }
            "8"
        },
        _ => {
            proof {
                reveal_strlit("9");
            }
            "9"
        },
    }
}

fn push_decimal(s: &mut String, n: usize)
    ensures
        final(s)@ == old(s)@ + decimal(n as nat),
    decreases n,
{
    if n >= 10 {
        push_decimal(s, n / 10);
    }
    s.append(digit_str(n % 10));
    proof {
        if n >= 10 {
            assert(final(s)@ =~= old(s)@ + decimal(n as nat));
        } else {
            assert(final(s)@ =~= old(s)@ + decimal(n as nat));
        }
    }
}

/// The menu identifier of the user's command at `index`.
pub fn user_command_id(index: usize) -> (r: String)
    ensures
        r@ == user_item_id(index as nat),
{
    let mut s = String::from_str("user_command_");
    push_decimal(&mut s, index);
    s
}

/// The position, below `count`, of the user's command whose menu
/// identifier is `id`.
pub fn user_command_index(id: &String, count: usize) -> (r: Option<usize>)
    ensures
        match r {
            Some(i) => i < count && user_item_id(i as nat) == id@,
            None => forall|i: nat| i < count ==> user_item_id(i) != id@,
        },
{
    let mut i: usize = 0;
    while i < count
        invariant
            i <= count,
            forall|k: nat| k < i ==> user_item_id(k) != id@,
        decreases count - i,
    {
        let candidate = user_command_id(i);
        if candidate == *id {
            return Some(i);
        }
        i = i + 1;
    }
    None
}

/// A menu entry made for one of the user's commands.
pub struct MenuEntry {
    pub id: String,
    pub label: String,
}

/// One menu entry for each of the user's commands, in order: the entry at
/// `i` is labelled with the command's title and carries the identifier of
/// position `i`.
pub fn user_menu_entries(commands: &[UserCommand]) -> (r: Vec<MenuEntry>)
    ensures
        r@.len() == commands@.len(),
        forall|i: int| 0 <= i < r@.len() ==> #[trigger] r@[i].id@ == user_item_id(i as nat)
            && r@[i].label@ == commands@[i].title@,
{
    let mut r: Vec<MenuEntry> = Vec::new();
    let mut i: usize = 0;
    while i < commands.len()
        invariant
            i <= commands@.len(),
            r@.len() == i,
            forall|k: int| 0 <= k < i ==> #[trigger] r@[k].id@ == user_item_id(k as nat)
                && r@[k].label@ == commands@[k].title@,
        decreases commands@.len() - i,
    {
        let id = user_command_id(i);
        let label = commands[i].title.clone();
        r.push(MenuEntry { id, label });
        i = i + 1;
    }
    r
}

impl UserCommand {
    /// The shell invocation that runs this command, exactly as written.
    pub fn invocation(&self) -> (r: Invocation)
        ensures
            r@ == shell_invocation(self.command@),
    {
        let mut args: Vec<String> = Vec::new();
        args.push(String::from_str("-c"));
        args.push(self.command.clone());
        let r = Invocation { program: String::from_str("sh"), args };
        assert(r@.args =~= seq!["-c"@, self.command@]);
        r
    }
}

} // verus!

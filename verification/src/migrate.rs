//! Schema migrations: which versions still need applying, and how a migration
//! script is cut into statements.

use vstd::prelude::*;
use crate::text::{starts_with, string_of_range, trim, trim_range};

verus! {

// ---------------------------------------------------------------------------
// Versions
// ---------------------------------------------------------------------------

/// Lexicographic order on code points (`str` ordering): `a <= b`.
pub open spec fn lex_le(a: Seq<char>, b: Seq<char>) -> bool
    decreases a.len(),
{
    if a.len() == 0 {
        true
    } else if b.len() == 0 {
        false
    } else if a[0] != b[0] {
        (a[0] as u32) < (b[0] as u32)
    } else {
        lex_le(a.drop_first(), b.drop_first())
    }
}

/// Whether a migration `version` is already applied when the schema records
/// `applied` (`applied >= Some(version)`).
pub open spec fn applied_already(applied: Option<Seq<char>>, version: Seq<char>) -> bool {
    match applied {
        Some(a) => lex_le(version, a),
        None => false,
    }
}

fn lex_le_exec(a: &Vec<char>, b: &Vec<char>) -> (r: bool)
    ensures
        r == lex_le(a@, b@),
{
    let mut i: usize = 0;
    assert(a@.skip(0) =~= a@);
    assert(b@.skip(0) =~= b@);
    while i < a.len()
        invariant
            i <= a@.len(),
            i <= b@.len(),
            forall|k: int| 0 <= k < i ==> a@[k] == b@[k],
            lex_le(a@, b@) == lex_le(a@.skip(i as int), b@.skip(i as int)),
        decreases a.len() - i,
    {
        if i >= b.len() {
            return false;
        }
        if a[i] != b[i] {
            return (a[i] as u32) < (b[i] as u32);
        }
        assert(a@.skip(i as int).drop_first() =~= a@.skip(i + 1));
        assert(b@.skip(i as int).drop_first() =~= b@.skip(i + 1));
        i = i + 1;
    }
    true
}

/// Whether migration `version` is already applied when the schema records
/// `applied`.
pub fn already_applied(applied: Option<&str>, version: &str) -> (r: bool)
    ensures
        r == applied_already(
            match applied {
                Some(a) => Some(a@),
                None => None,
            },
            version@,
        ),
{
    match applied {
        None => false,
        Some(a) => {
            let x: Vec<char> = crate::text::chars_of(version);
            let y: Vec<char> = crate::text::chars_of(a);
            lex_le_exec(&x, &y)
        },
    }
}

proof fn lex_le_refl(a: Seq<char>)
    ensures
        lex_le(a, a),
    decreases a.len(),
{
    if a.len() > 0 {
        lex_le_refl(a.drop_first());
    }
}

/// Migrations are applied once: once the schema records a version, that version
/// is not applied again.
pub proof fn recorded_version_is_not_reapplied(version: Seq<char>)
    ensures
        applied_already(Some(version), version),
{
    lex_le_refl(version);
}

/// What running one migration does next.
pub enum MigrationAction {
    /// Its version is already recorded: leave it and go on to the next.
    Skip,
    /// Run its up script.
    RunUp,
    /// Its up script went through: go on to the next migration.
    Next,
    /// Its up script failed: run its down script, then stop with the up
    /// script's error.
    RollBackAndStop,
}

/// The next action for one migration: `applied` tells whether its version is
/// already recorded (`already_applied`), and `up_ok` whether its up script went
/// through, once it has run.
pub fn migration_step(applied: bool, up_ok: Option<bool>) -> (a: MigrationAction)
    ensures
        applied ==> a is Skip,
        !applied ==> match up_ok {
            None => a is RunUp,
            Some(true) => a is Next,
            Some(false) => a is RollBackAndStop,
        },
{
    if applied {
        return MigrationAction::Skip;
    }
    match up_ok {
        None => MigrationAction::RunUp,
        Some(true) => MigrationAction::Next,
        Some(false) => MigrationAction::RollBackAndStop,
    }
}

// ---------------------------------------------------------------------------
// Statements
// ---------------------------------------------------------------------------

/// The pieces of `s` between occurrences of `sep` (`str::split`); there is
/// always at least one.
pub open spec fn split_on(s: Seq<char>, sep: char) -> Seq<Seq<char>>
    decreases s.len(),
{
    if s.len() == 0 {
        seq![Seq::empty()]
    } else {
        let prev = split_on(s.drop_last(), sep);
        if s.last() == sep {
            prev.push(Seq::empty())
        } else {
            prev.update(prev.len() - 1, prev.last().push(s.last()))
        }
    }
}

proof fn lemma_split_nonempty(s: Seq<char>, sep: char)
    ensures
        split_on(s, sep).len() >= 1,
    decreases s.len(),
{
    if s.len() > 0 {
        lemma_split_nonempty(s.drop_last(), sep);
    }
}

/// A line without the `\r` of a `\r\n` ending.
pub open spec fn strip_cr(l: Seq<char>) -> Seq<char> {
    if l.len() > 0 && l.last() == '\r' {
        l.drop_last()
    } else {
        l
    }
}

/// The lines of `s` (`str::lines`): split at `\n`, each line but the last without
/// a trailing `\r`, and no final empty line.
pub open spec fn lines_of(s: Seq<char>) -> Seq<Seq<char>> {
    let parts = split_on(s, '\n');
    let init = parts.drop_last().map_values(|l: Seq<char>| strip_cr(l));
    if parts.last().len() == 0 {
        init
    } else {
        init.push(parts.last())
    }
}

/// Whether a line is an SQL comment: after trimming it starts with `--`.
pub open spec fn is_comment_line(l: Seq<char>) -> bool {
    starts_with(trim(l), "--"@)
}

/// The lines that are not comments, in order.
pub open spec fn code_lines(ls: Seq<Seq<char>>) -> Seq<Seq<char>>
    decreases ls.len(),
{
    if ls.len() == 0 {
        Seq::empty()
    } else if is_comment_line(ls.last()) {
        code_lines(ls.drop_last())
    } else {
        code_lines(ls.drop_last()).push(ls.last())
    }
}

/// The lines joined with `\n` between them.
pub open spec fn join_nl(ls: Seq<Seq<char>>) -> Seq<char>
    decreases ls.len(),
{
    if ls.len() == 0 {
        Seq::empty()
    } else if ls.len() == 1 {
        ls[0]
    } else {
        join_nl(ls.drop_last()) + seq!['\n'] + ls.last()
    }
}

/// The statement of one `;`-separated chunk: its non-comment lines, joined and
/// trimmed.
pub open spec fn statement_of(chunk: Seq<char>) -> Seq<char> {
    trim(join_nl(code_lines(lines_of(chunk))))
}

/// The non-empty statements of the chunks, in order.
pub open spec fn statements(chunks: Seq<Seq<char>>) -> Seq<Seq<char>>
    decreases chunks.len(),
{
    if chunks.len() == 0 {
        Seq::empty()
    } else {
        let prev = statements(chunks.drop_last());
        let st = statement_of(chunks.last());
        if st.len() == 0 {
            prev
        } else {
            prev.push(st)
        }
    }
}

/// The statements of a migration script.
pub open spec fn sql_statements(sql: Seq<char>) -> Seq<Seq<char>> {
    statements(split_on(sql, ';'))
}

/// The views of a sequence of character vectors.
pub open spec fn deep(v: Seq<Vec<char>>) -> Seq<Seq<char>> {
    v.map_values(|x: Vec<char>| x@)
}

fn copy_range(v: &Vec<char>, a: usize, b: usize) -> (r: Vec<char>)
    requires
        a <= b <= v@.len(),
    ensures
        r@ == v@.subrange(a as int, b as int),
{
    let mut r: Vec<char> = Vec::new();
    let mut i: usize = a;
    while i < b
        invariant
            a <= i <= b <= v@.len(),
            r@ == v@.subrange(a as int, i as int),
        decreases b - i,
    {
        r.push(v[i]);
        i = i + 1;
        assert(r@ =~= v@.subrange(a as int, i as int));
    }
    r
}

/// The pieces of `s` between occurrences of `sep`.
pub fn split_chars(s: &Vec<char>, sep: char) -> (r: Vec<Vec<char>>)
    ensures
        deep(r@) == split_on(s@, sep),
{
    let mut parts: Vec<Vec<char>> = Vec::new();
    let mut cur: Vec<char> = Vec::new();
    let mut i: usize = 0;
    assert(s@.take(0) =~= Seq::<char>::empty());
    assert(deep(parts@).push(cur@) =~= seq![Seq::<char>::empty()]);
    while i < s.len()
        invariant
            i <= s@.len(),
            split_on(s@.take(i as int), sep) =~= deep(parts@).push(cur@),
        decreases s.len() - i,
    {
        let c: char = s[i];
        assert(s@.take(i + 1).drop_last() =~= s@.take(i as int));
        assert(s@.take(i + 1).last() == c);
        let ghost old_parts = parts@;
        let ghost old_cur = cur@;
        if c == sep {
            parts.push(cur);
            cur = Vec::new();
            assert(deep(parts@) =~= deep(old_parts).push(old_cur));
        } else {
            cur.push(c);
        }
        i = i + 1;
    }
    assert(s@.take(s@.len() as int) =~= s@);
    let ghost before = parts@;
    parts.push(cur);
    assert(deep(parts@) =~= deep(before).push(cur@));
    parts
}

fn strip_cr_exec(l: &Vec<char>) -> (r: Vec<char>)
    ensures
        r@ == strip_cr(l@),
{
    if l.len() > 0 && l[l.len() - 1] == '\r' {
        let r: Vec<char> = copy_range(l, 0, l.len() - 1);
        assert(r@ =~= l@.drop_last());
        r
    } else {
        let r: Vec<char> = copy_range(l, 0, l.len());
        assert(r@ =~= l@);
        r
    }
}

/// The lines of `s`.
pub fn lines(s: &Vec<char>) -> (r: Vec<Vec<char>>)
    ensures
        deep(r@) == lines_of(s@),
{
    let parts: Vec<Vec<char>> = split_chars(s, '\n');
    proof {
        lemma_split_nonempty(s@, '\n');
    }
    let ghost ps = split_on(s@, '\n');
    let n: usize = parts.len();
    let mut r: Vec<Vec<char>> = Vec::new();
    let mut k: usize = 0;
    while k + 1 < n
        invariant
            n == parts@.len(),
            n >= 1,
            deep(parts@) == ps,
            k + 1 <= n,
            deep(r@) =~= ps.drop_last().map_values(|l: Seq<char>| strip_cr(l)).take(k as int),
        decreases n - k,
    {
        let ghost before = r@;
        assert(parts@[k as int]@ == ps[k as int]);
        r.push(strip_cr_exec(&parts[k]));
        assert(deep(r@) =~= deep(before).push(strip_cr(ps[k as int])));
        k = k + 1;
    }
    assert(deep(r@) =~= ps.drop_last().map_values(|l: Seq<char>| strip_cr(l)));
    assert(parts@[n - 1]@ == ps.last());
    if parts[n - 1].len() == 0 {
        r
    } else {
        let ghost before = r@;
        let last: Vec<char> = copy_range(&parts[n - 1], 0, parts[n - 1].len());
        assert(last@ =~= ps.last());
        r.push(last);
        assert(deep(r@) =~= deep(before).push(ps.last()));
        r
    }
}

/// Whether a line is an SQL comment.
pub fn is_comment_line_exec(l: &Vec<char>) -> (r: bool)
    ensures
        r == is_comment_line(l@),
{
    let (a, b) = trim_range(l);
    let ghost t = l@.subrange(a as int, b as int);
    proof {
        reveal_strlit("--");
    }
    if b - a >= 2 && l[a] == '-' && l[a + 1] == '-' {
        assert(t.subrange(0, 2) =~= "--"@);
        true
    } else {
        if b - a >= 2 {
            assert(t.subrange(0, 2)[0] == t[0]);
            assert(t.subrange(0, 2)[1] == t[1]);
        }
        false
    }
}

/// The lines that are not comments.
pub fn keep_code_lines(ls: &Vec<Vec<char>>) -> (r: Vec<Vec<char>>)
    ensures
        deep(r@) == code_lines(deep(ls@)),
{
    let mut r: Vec<Vec<char>> = Vec::new();
    let mut i: usize = 0;
    assert(deep(ls@).take(0) =~= Seq::<Seq<char>>::empty());
    while i < ls.len()
        invariant
            i <= ls@.len(),
            deep(r@) =~= code_lines(deep(ls@).take(i as int)),
        decreases ls.len() - i,
    {
        assert(deep(ls@).take(i + 1).drop_last() =~= deep(ls@).take(i as int));
        assert(deep(ls@).take(i + 1).last() == ls@[i as int]@);
        if !is_comment_line_exec(&ls[i]) {
            let ghost before = r@;
            let l: Vec<char> = copy_range(&ls[i], 0, ls[i].len());
            assert(l@ =~= ls@[i as int]@);
            r.push(l);
            assert(deep(r@) =~= deep(before).push(ls@[i as int]@));
        }
        i = i + 1;
    }
    assert(deep(ls@).take(ls@.len() as int) =~= deep(ls@));
    r
}

/// The lines joined with `\n`.
pub fn join_lines(ls: &Vec<Vec<char>>) -> (r: Vec<char>)
    ensures
        r@ == join_nl(deep(ls@)),
{
    let mut out: Vec<char> = Vec::new();
    let mut i: usize = 0;
    assert(deep(ls@).take(0) =~= Seq::<Seq<char>>::empty());
    while i < ls.len()
        invariant
            i <= ls@.len(),
            out@ =~= join_nl(deep(ls@).take(i as int)),
        decreases ls.len() - i,
    {
        let ghost before = out@;
        assert(deep(ls@).take(i + 1).drop_last() =~= deep(ls@).take(i as int));
        assert(deep(ls@).take(i + 1).last() == ls@[i as int]@);
        if i > 0 {
            out.push('\n');
        }
        let mut j: usize = 0;
        let ghost mid = out@;
        while j < ls[i].len()
            invariant
                i < ls@.len(),
                j <= ls@[i as int]@.len(),
                out@ =~= mid + ls@[i as int]@.take(j as int),
            decreases ls@[i as int]@.len() - j,
        {
            out.push(ls[i][j]);
            j = j + 1;
            assert(out@ =~= mid + ls@[i as int]@.take(j as int));
        }
        assert(ls@[i as int]@.take(j as int) =~= ls@[i as int]@);
        if i == 0 {
            assert(deep(ls@).take(1) =~= seq![ls@[0]@]);
        }
        i = i + 1;
    }
    assert(deep(ls@).take(ls@.len() as int) =~= deep(ls@));
    out
}

/// Cuts a migration script into its statements: split at `;`, comment lines
/// dropped, each piece trimmed, empty pieces dropped.
pub fn split_sql(sql: &str) -> (r: Vec<String>)
    ensures
        r@.len() == sql_statements(sql@).len(),
        forall|i: int| 0 <= i < r@.len() ==> #[trigger] r@[i]@ == sql_statements(sql@)[i],
{
    let cs: Vec<char> = crate::text::chars_of(sql);
    let chunks: Vec<Vec<char>> = split_chars(&cs, ';');
    let ghost cks = deep(chunks@);
    let mut r: Vec<String> = Vec::new();
    let mut i: usize = 0;
    assert(cks.take(0) =~= Seq::<Seq<char>>::empty());
    while i < chunks.len()
        invariant
            cks == deep(chunks@),
            cks == split_on(sql@, ';'),
            i <= chunks@.len(),
            r@.len() == statements(cks.take(i as int)).len(),
            forall|k: int|
                0 <= k < r@.len() ==> #[trigger] r@[k]@ == statements(cks.take(i as int))[k],
        decreases chunks.len() - i,
    {
        assert(cks.take(i + 1).drop_last() =~= cks.take(i as int));
        assert(cks.take(i + 1).last() == chunks@[i as int]@);
        let ls: Vec<Vec<char>> = lines(&chunks[i]);
        let kept: Vec<Vec<char>> = keep_code_lines(&ls);
        let joined: Vec<char> = join_lines(&kept);
        let (a, b) = trim_range(&joined);
        if a < b {
            let st: String = string_of_range(&joined, a, b);
            r.push(st);
        }
        i = i + 1;
    }
    assert(cks.take(chunks@.len() as int) =~= cks);
    r
}

/// No statement cut from a script is empty.
pub proof fn statements_are_nonempty(sql: Seq<char>, i: int)
    requires
        0 <= i < sql_statements(sql).len(),
    ensures
        sql_statements(sql)[i].len() > 0,
{
    lemma_statements_nonempty(split_on(sql, ';'), i);
}

proof fn lemma_statements_nonempty(chunks: Seq<Seq<char>>, i: int)
    requires
        0 <= i < statements(chunks).len(),
    ensures
        statements(chunks)[i].len() > 0,
    decreases chunks.len(),
{
    if chunks.len() > 0 {
        let prev = statements(chunks.drop_last());
        if i < prev.len() {
            lemma_statements_nonempty(chunks.drop_last(), i);
        }
    }
}

} // verus!

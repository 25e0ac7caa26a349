use vstd::prelude::*;
use vstd::string::StringExecFns;

verus! {

#[derive(PartialEq, Eq, Structural, Clone, Copy, Debug)]
pub enum Level {
    Error,
    Warning,
}

/// One issue reported by the formatter: its severity, its message, and where
/// it stands (1-based line and column), with the file once it is known.
#[derive(Clone, Debug)]
pub struct Diagnostic {
    pub level: Level,
    pub message: String,
    pub line: u32,
    pub column: u32,
    pub source_file: Option<String>,
}

/// The diagnostic names the file at `path` as its source.
pub open spec fn attributed_to(d: Diagnostic, path: Seq<char>) -> bool {
    d.source_file matches Some(f) && f@ == path
}

pub open spec fn digit_char(d: nat) -> char {
    if d == 0 { '0' } else if d == 1 { '1' } else if d == 2 { '2' } else if d == 3 { '3' }
    else if d == 4 { '4' } else if d == 5 { '5' } else if d == 6 { '6' } else if d == 7 { '7' }
    else if d == 8 { '8' } else { '9' }
}

/// The decimal digits of `n`, without leading zeros.
pub open spec fn decimal(n: nat) -> Seq<char>
    decreases n,
{
    if n < 10 {
        seq![digit_char(n)]
    } else {
        decimal(n / 10) + seq![digit_char(n % 10)]
    }
}

pub open spec fn level_text(l: Level) -> Seq<char> {
    match l {
        Level::Error => "error"@,
        Level::Warning => "warning"@,
    }
}

/// `level: message`, then an indented line with the location:
/// `file:line:column`, or `line:column` where the file is not known.
pub open spec fn text_of(level: Level, message: Seq<char>, line: u32, column: u32, file: Option<Seq<char>>) -> Seq<char> {
    let file_part = match file {
        Some(f) => f + ":"@,
        None => Seq::empty(),
    };
    level_text(level) + ": "@ + message + "\n  --> "@ + file_part + decimal(line as nat) + ":"@
        + decimal(column as nat) + "\n"@
}

pub open spec fn diagnostic_text(d: Diagnostic) -> Seq<char> {
    let file = match d.source_file {
        Some(f) => Some(f@),
        None => None,
    };
    text_of(d.level, d.message@, d.line, d.column, file)
}

/// The text of a list of diagnostics: each one's text, in the order given.
pub open spec fn rendered(ds: Seq<Diagnostic>) -> Seq<char>
    decreases ds.len(),
{
    if ds.len() == 0 {
        Seq::empty()
    } else {
        rendered(ds.drop_last()) + diagnostic_text(ds.last())
    }
}

fn digit_str(d: u32) -> (r: &'static str)
    requires
        d < 10,
    ensures
        r@ == seq![digit_char(d as nat)],
{
    proof {
        reveal_strlit("0");
        reveal_strlit("1");
        reveal_strlit("2");
        reveal_strlit("3");
        reveal_strlit("4");
        reveal_strlit("5");
        reveal_strlit("6");
        reveal_strlit("7");
        reveal_strlit("8");
        reveal_strlit("9");
    }
    match d {
        0 => "0",
        1 => "1",
        2 => "2",
        3 => "3",
        4 => "4",
        5 => "5",
        6 => "6",
        7 => "7",
        8 => "8",
        _ => "9",
    }
}

fn push_decimal(out: &mut String, n: u32)
    ensures
        final(out)@ == old(out)@ + decimal(n as nat),
    decreases n,
{
    if n >= 10 {
        push_decimal(out, n / 10);
    }
    out.append(digit_str(n % 10));
    proof {
        assert(final(out)@ =~= old(out)@ + decimal(n as nat));
    }
}

impl Diagnostic {
    /// The same diagnostic, attributed to the file at `path`.
    pub fn with_source_file(self, path: String) -> (r: Diagnostic)
        ensures
            r.level == self.level,
            r.message@ == self.message@,
            r.line == self.line,
            r.column == self.column,
            attributed_to(r, path@),
    {
        Diagnostic { source_file: Some(path), ..self }
    }

    fn write_to(&self, out: &mut String)
        ensures
            final(out)@ == old(out)@ + diagnostic_text(*self),
    {
        match self.level {
            Level::Error => out.append("error"),
            Level::Warning => out.append("warning"),
        }
        out.append(": ");
        out.append(self.message.as_str());
        out.append("\n  --> ");
        match &self.source_file {
            Some(f) => {
                out.append(f.as_str());
                out.append(":");
            },
            None => {},
        }
        push_decimal(out, self.line);
        out.append(":");
        push_decimal(out, self.column);
        out.append("\n");
        proof {
            assert(final(out)@ =~= old(out)@ + diagnostic_text(*self));
        }
    }
}

/// Attributes every diagnostic to the file at `path`, keeping their order.
pub fn attribute_all(ds: &Vec<Diagnostic>, path: &str) -> (r: Vec<Diagnostic>)
    ensures
        attribution_of(r@, ds@, path@),
{
    let mut r: Vec<Diagnostic> = Vec::new();
    let mut i: usize = 0;
    while i < ds.len()
        invariant
            i <= ds@.len(),
            r@.len() == i,
            forall|j: int| 0 <= j < i ==> {
                &&& (#[trigger] r@[j]).level == ds@[j].level
                &&& r@[j].message@ == ds@[j].message@
                &&& r@[j].line == ds@[j].line
                &&& r@[j].column == ds@[j].column
                &&& attributed_to(r@[j], path@)
            },
        decreases ds@.len() - i,
    {
        let d = &ds[i];
        r.push(Diagnostic {
            level: d.level,
            message: d.message.clone(),
            line: d.line,
            column: d.column,
            source_file: Some(path.to_owned()),
        });
        i = i + 1;
    }
    r
}

/// Writes every diagnostic into one text, in the order given, none left out.
pub fn render(ds: &Vec<Diagnostic>) -> (r: String)
    ensures
        r@ == rendered(ds@),
{
    let mut out = String::new();
    let mut i: usize = 0;
    while i < ds.len()
        invariant
            i <= ds@.len(),
            out@ == rendered(ds@.subrange(0, i as int)),
        decreases ds@.len() - i,
    {
        proof {
            let next = ds@.subrange(0, i + 1);
            assert(next.drop_last() =~= ds@.subrange(0, i as int));
        }
        ds[i].write_to(&mut out);
        i = i + 1;
    }
    proof {
        assert(ds@.subrange(0, ds@.len() as int) =~= ds@);
    }
    out
}

/// The text of a list of diagnostics once each is attributed to the file at
/// `path`.
pub open spec fn rendered_for(ds: Seq<Diagnostic>, path: Seq<char>) -> Seq<char>
    decreases ds.len(),
{
    if ds.len() == 0 {
        Seq::empty()
    } else {
        let d = ds.last();
        rendered_for(ds.drop_last(), path) + text_of(d.level, d.message@, d.line, d.column, Some(path))
    }
}

/// `rs` is `ds` with every diagnostic attributed to the file at `path`.
pub open spec fn attribution_of(rs: Seq<Diagnostic>, ds: Seq<Diagnostic>, path: Seq<char>) -> bool {
    &&& rs.len() == ds.len()
    &&& forall|i: int| 0 <= i < rs.len() ==> {
        &&& (#[trigger] rs[i]).level == ds[i].level
        &&& rs[i].message@ == ds[i].message@
        &&& rs[i].line == ds[i].line
        &&& rs[i].column == ds[i].column
        &&& attributed_to(rs[i], path)
    }
}

pub proof fn lemma_rendered_attribution(rs: Seq<Diagnostic>, ds: Seq<Diagnostic>, path: Seq<char>)
    requires
        attribution_of(rs, ds, path),
    ensures
        rendered(rs) == rendered_for(ds, path),
    decreases ds.len(),
{
    if ds.len() > 0 {
        lemma_rendered_attribution(rs.drop_last(), ds.drop_last(), path);
        assert(rs.last() == rs[rs.len() - 1]);
    }
}

pub open spec fn contains(s: Seq<char>, t: Seq<char>) -> bool {
    exists|i: int| 0 <= i && i + t.len() <= s.len() && #[trigger] s.subrange(i, i + t.len()) == t
}

/// The text of a non-empty list of diagnostics attributed to the file at
/// `path` is not empty and names that file.
pub proof fn rendered_names_file(ds: Seq<Diagnostic>, path: Seq<char>)
    requires
        ds.len() > 0,
    ensures
        rendered_for(ds, path).len() > 0,
        contains(rendered_for(ds, path), path),
{
    let d = ds.last();
    let head = rendered_for(ds.drop_last(), path) + level_text(d.level) + ": "@ + d.message@ + "\n  --> "@;
    let tail = ":"@ + decimal(d.line as nat) + ":"@ + decimal(d.column as nat) + "\n"@;
    assert(rendered_for(ds, path) =~= head + path + tail);
    assert((head + path + tail).subrange(head.len() as int, (head.len() + path.len()) as int) =~= path);
    reveal_strlit("\n");
}

} // verus!

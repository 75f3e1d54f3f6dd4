use crate::error::{AppError, AppErrorView};
use crate::params::pairs_view;
use crate::text::{cat3, i64_text, int_text, pieces, split_text, texts, trim_of, trim_text, u64_text, nat_text};
use vstd::prelude::*;

verus! {

/// `zfs get -H all '<name>'`.
pub open spec fn get_command(name: Seq<char>) -> Seq<char> {
    "zfs get -H all '"@ + name + "'"@
}

/// `zfs create '<path>'`, the command that creates one ancestor.
pub open spec fn ancestor_command(path: Seq<char>) -> Seq<char> {
    "zfs create '"@ + path + "'"@
}

/// The `-V <size>` option of a volume, or nothing for a filesystem.
pub open spec fn size_option(size: Option<i64>) -> Seq<char> {
    match size {
        Some(s) => "-V "@ + int_text(s as int),
        None => Seq::empty(),
    }
}

/// `zfs create <size option> '<name>'`.
pub open spec fn create_command(name: Seq<char>, size: Option<i64>) -> Seq<char> {
    "zfs create "@ + size_option(size) + " '"@ + name + "'"@
}

/// The number of `/` in `s`.
pub open spec fn slash_count(s: Seq<char>) -> nat
    decreases s.len(),
{
    if s.len() == 0 {
        0
    } else if s.last() == '/' {
        slash_count(s.drop_last()) + 1
    } else {
        slash_count(s.drop_last())
    }
}

/// The ancestors of a dataset that are created before it: every prefix
/// that ends before a `/`, except the one before the first `/` (the pool).
pub open spec fn ancestors(name: Seq<char>) -> Seq<Seq<char>>
    decreases name.len(),
{
    if name.len() == 0 {
        Seq::empty()
    } else {
        let a = ancestors(name.drop_last());
        if name.last() == '/' && slash_count(name.drop_last()) > 0 {
            a.push(name.drop_last())
        } else {
            a
        }
    }
}

/// The words `'<k>=<v>' ` of a `zfs set` command, one per attribute.
pub open spec fn assignments(attrs: Seq<(Seq<char>, Seq<char>)>) -> Seq<char>
    decreases attrs.len(),
{
    if attrs.len() == 0 {
        Seq::empty()
    } else {
        assignments(attrs.drop_last()) + "'"@ + attrs.last().0 + "="@ + attrs.last().1 + "' "@
    }
}

/// `zfs set '<k>=<v>' ... <dataset>`.
pub open spec fn set_command(dataset: Seq<char>, attrs: Seq<(Seq<char>, Seq<char>)>) -> Seq<
    char,
> {
    "zfs set "@ + assignments(attrs) + dataset
}

/// The error of a failed `zfs create`.
pub open spec fn create_failure(code: u32, output: Seq<char>) -> AppErrorView {
    AppErrorView::Generic(
        trim_of("Failed to create ZFS dataset, exit code "@ + nat_text(code as nat) + "\n"@ + output),
    )
}

pub fn get_dataset_command(name: &str) -> (r: String)
    ensures
        r@ == get_command(name@),
{
    cat3("zfs get -H all '", name, "'")
}

pub fn ancestor_create_command(path: &str) -> (r: String)
    ensures
        r@ == ancestor_command(path@),
{
    cat3("zfs create '", path, "'")
}

pub fn create_dataset_command(name: &str, size: Option<i64>) -> (r: String)
    ensures
        r@ == create_command(name@, size),
{
    let mut r = String::from_str("zfs create ");
    match size {
        Some(s) => {
            r.append("-V ");
            r.append(i64_text(s).as_str());
        },
        None => {},
    }
    r.append(" '");
    r.append(name);
    r.append("'");
    r
}

/// The datasets to create, in order, before `name` itself.
pub fn ancestor_paths(name: &str) -> (r: Vec<String>)
    ensures
        texts(r@) == ancestors(name@),
{
    let c = crate::text::chars_of(name);
    let mut r: Vec<String> = Vec::new();
    let mut seen: usize = 0;
    let mut i: usize = 0;
    while i < c.len()
        invariant
            c@ == name@,
            i <= c@.len(),
            seen <= i,
            seen == slash_count(name@.subrange(0, i as int)),
            texts(r@) == ancestors(name@.subrange(0, i as int)),
        decreases c@.len() - i,
    {
        let ghost pre = name@.subrange(0, i as int);
        let ghost next = name@.subrange(0, i + 1);
        assert(next.drop_last() =~= pre);
        if c[i] == '/' {
            if seen > 0 {
                let ghost before = r@;
                let p = crate::text::string_of(&c, 0, i);
                r.push(p);
                assert(texts(r@) =~= texts(before).push(pre));
            }
            seen = seen + 1;
        }
        i = i + 1;
    }
    assert(name@.subrange(0, i as int) =~= name@);
    r
}

/// The `zfs set` command for `attrs` on `dataset`, or none when there is nothing to set.
pub fn set_attributes_command(dataset: &str, attrs: &Vec<(String, String)>) -> (r: Option<String>)
    ensures
        attrs@.len() == 0 ==> r is None,
        attrs@.len() > 0 ==> (r matches Some(c) && c@ == set_command(dataset@, pairs_view(attrs@))),
{
    if attrs.len() == 0 {
        return None;
    }
    let mut cmd = String::from_str("zfs set ");
    let mut i: usize = 0;
    while i < attrs.len()
        invariant
            i <= attrs@.len(),
            cmd@ == "zfs set "@ + assignments(pairs_view(attrs@.subrange(0, i as int))),
        decreases attrs@.len() - i,
    {
        let ghost before = pairs_view(attrs@.subrange(0, i as int));
        assert(pairs_view(attrs@.subrange(0, i + 1)).drop_last() =~= before);
        cmd.append("'");
        cmd.append(attrs[i].0.as_str());
        cmd.append("=");
        cmd.append(attrs[i].1.as_str());
        cmd.append("' ");
        assert(cmd@ =~= "zfs set "@ + assignments(pairs_view(attrs@.subrange(0, i + 1))));
        i = i + 1;
    }
    assert(attrs@.subrange(0, i as int) =~= attrs@);
    cmd.append(dataset);
    Some(cmd)
}

/// The error of a failed `zfs create` that exited with `code` and printed `output`.
pub fn create_failure_error(code: u32, output: &str) -> (r: AppError)
    ensures
        r@ == create_failure(code, output@),
{
    let mut m = String::from_str("Failed to create ZFS dataset, exit code ");
    m.append(u64_text(code as u64).as_str());
    m.append("\n");
    m.append(output);
    AppError::Generic(trim_text(m.as_str()))
}

/// One row of `zfs list -H`.
#[derive(Debug)]
pub struct ZFSDatasetEntry {
    pub name: String,
    pub used: String,
    pub avail: String,
    pub refer: String,
    pub mountpoint: String,
}

/// The rows of `output` (split at `\n`) that hold exactly `n` tab-separated columns, split.
pub open spec fn rows_of_width(output: Seq<char>, n: nat) -> Seq<Seq<Seq<char>>> {
    pieces(output, '\n').map_values(|l: Seq<char>| pieces(l, '\t')).filter(
        |cols: Seq<Seq<char>>| cols.len() == n,
    )
}

/// The rows of `output` that hold exactly `n` tab-separated columns.
pub fn table_rows(output: &str, n: usize) -> (r: Vec<Vec<String>>)
    ensures
        r@.map_values(|row: Vec<String>| texts(row@)) == rows_of_width(output@, n as nat),
{
    let lines = split_text(output, '\n');
    let ghost cols = pieces(output@, '\n').map_values(|l: Seq<char>| pieces(l, '\t'));
    let mut r: Vec<Vec<String>> = Vec::new();
    let mut i: usize = 0;
    while i < lines.len()
        invariant
            texts(lines@) == pieces(output@, '\n'),
            cols == pieces(output@, '\n').map_values(|l: Seq<char>| pieces(l, '\t')),
            i <= lines@.len(),
            r@.map_values(|row: Vec<String>| texts(row@)) == cols.subrange(0, i as int).filter(
                |c: Seq<Seq<char>>| c.len() == n,
            ),
        decreases lines@.len() - i,
    {
        let row = split_text(lines[i].as_str(), '\t');
        proof {
            reveal(Seq::filter);
        }
        assert(cols.subrange(0, i + 1).drop_last() =~= cols.subrange(0, i as int));
        assert(texts(lines@)[i as int] == lines@[i as int]@);
        assert(cols[i as int] == texts(row@));
        if row.len() == n {
            let ghost before = r@;
            r.push(row);
            assert(r@.map_values(|row: Vec<String>| texts(row@)) =~= before.map_values(
                |row: Vec<String>| texts(row@),
            ).push(texts(r@.last()@)));
        }
        i = i + 1;
    }
    assert(cols.subrange(0, i as int) =~= cols);
    r
}

impl ZFSDatasetEntry {
    /// The entry that a five-column row describes.
    pub open spec fn of_row(self, row: Seq<Seq<char>>) -> bool {
        &&& self.name@ == row[0]
        &&& self.used@ == row[1]
        &&& self.avail@ == row[2]
        &&& self.refer@ == row[3]
        &&& self.mountpoint@ == row[4]
    }
}

/// The entries of `zfs list -H` that exited with `code` and printed `output`;
/// rows without five columns are skipped.
pub fn list_datasets_result(output: &str, code: u32) -> (r: Result<Vec<ZFSDatasetEntry>, AppError>)
    ensures
        code != 0 ==> r is Err && r->Err_0@ == AppErrorView::Generic(
            "ZFS list failed with code "@ + nat_text(code as nat) + "!\n"@ + output@,
        ),
        code == 0 ==> r is Ok && r->Ok_0@.len() == rows_of_width(output@, 5).len() && forall|
            i: int,
        | 0 <= i < r->Ok_0@.len() ==> #[trigger] r->Ok_0@[i].of_row(rows_of_width(output@, 5)[i]),
{
    if code != 0 {
        let mut m = String::from_str("ZFS list failed with code ");
        m.append(u64_text(code as u64).as_str());
        m.append("!\n");
        m.append(output);
        return Err(AppError::Generic(m));
    }
    let rows = table_rows(output, 5);
    let ghost rv = rows_of_width(output@, 5);
    let mut r: Vec<ZFSDatasetEntry> = Vec::new();
    let mut i: usize = 0;
    while i < rows.len()
        invariant
            rows@.map_values(|row: Vec<String>| texts(row@)) == rv,
            i <= rows@.len(),
            r@.len() == i,
            forall|k: int| 0 <= k < i ==> #[trigger] r@[k].of_row(rv[k]),
            forall|k: int| 0 <= k < rv.len() ==> #[trigger] rv[k].len() == 5,
        decreases rows@.len() - i,
    {
        proof {
            assert(rv[i as int] == texts(rows@[i as int]@));
        }
        let row = &rows[i];
        r.push(
            ZFSDatasetEntry {
                name: row[0].clone(),
                used: row[1].clone(),
                avail: row[2].clone(),
                refer: row[3].clone(),
                mountpoint: row[4].clone(),
            },
        );
        i = i + 1;
    }
    Ok(r)
}

/// One property of a dataset, as `zfs get` reports it.
#[derive(Debug)]
pub struct ZFSProperty {
    pub value: String,
    pub source: String,
}

/// A dataset and its properties.
#[derive(Debug)]
pub struct ZFSDataset {
    pub name: String,
    /// Property name and its value and source, in the order reported.
    pub properties: Vec<(String, ZFSProperty)>,
}

impl ZFSDataset {
    /// The dataset that `zfs get -H all '<name>'` describes when it exits
    /// with `code` and prints `output`: none when it exits with 1, and
    /// otherwise one property for each row of four columns.
    pub fn from_output(name: &str, output: &str, code: u32) -> (r: Option<ZFSDataset>)
        ensures
            r is None <==> code == 1,
            r matches Some(d) ==> {
                &&& d.name@ == name@
                &&& d.properties@.len() == rows_of_width(output@, 4).len()
                &&& forall|i: int|
                    0 <= i < d.properties@.len() ==> {
                        let row = #[trigger] rows_of_width(output@, 4)[i];
                        &&& d.properties@[i].0@ == row[1]
                        &&& d.properties@[i].1.value@ == row[2]
                        &&& d.properties@[i].1.source@ == row[3]
                    }
            },
    {
        if code == 1 {
            return None;
        }
        let rows = table_rows(output, 4);
        let ghost rv = rows_of_width(output@, 4);
        let mut props: Vec<(String, ZFSProperty)> = Vec::new();
        let mut i: usize = 0;
        while i < rows.len()
            invariant
                rows@.map_values(|row: Vec<String>| texts(row@)) == rv,
                i <= rows@.len(),
                props@.len() == i,
                forall|k: int|
                    0 <= k < i ==> {
                        let row = #[trigger] rv[k];
                        &&& props@[k].0@ == row[1]
                        &&& props@[k].1.value@ == row[2]
                        &&& props@[k].1.source@ == row[3]
                    },
                forall|k: int| 0 <= k < rv.len() ==> #[trigger] rv[k].len() == 4,
            decreases rows@.len() - i,
        {
            proof {
                assert(rv[i as int] == texts(rows@[i as int]@));
            }
            let row = &rows[i];
            props.push(
                (row[1].clone(), ZFSProperty { value: row[2].clone(), source: row[3].clone() }),
            );
            i = i + 1;
        }
        Some(ZFSDataset { name: name.to_owned(), properties: props })
    }
}

} // verus!

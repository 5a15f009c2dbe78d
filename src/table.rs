//! Drawing secrets as a bordered two-column table.
use vstd::prelude::*;

use crate::error::AsmError;
use crate::search::{matching, search_all_secrets};
use crate::secret::{header_row, row_of, Secret, SecretList};

verus! {

/// The table that tabled draws for a header row and data rows, with rounded
/// borders and every cell aligned left.
pub uninterp spec fn table_text(header: Seq<Seq<char>>, rows: Seq<Seq<Seq<char>>>) -> Seq<char>;

/// Relies on tabled's `Builder` (a header row set by `set_columns`, data rows
/// collected in order), `Style::rounded` and `Alignment::left` on every cell:
/// the drawn text depends on the header and the rows alone.
#[verifier::external_body]
fn draw_table(header: &Vec<String>, rows: &Vec<Vec<String>>) -> (r: String)
    ensures
        r@ == table_text(header.deep_view(), rows.deep_view()),
{
    let mut builder: tabled::builder::Builder = rows.iter().collect();
    builder.set_columns(header.iter());
    builder.build().with(tabled::Style::rounded()).with(
        tabled::Modify::new(tabled::object::Segment::all()).with(tabled::Alignment::left()),
    ).to_string()
}

/// The rows of a table of `list`, one per secret, in list order.
pub open spec fn rows_of(list: Seq<Secret>) -> Seq<Seq<Seq<char>>> {
    list.map_values(|s: Secret| row_of(s))
}

/// The display of a table of `list`: the drawn table with an empty line
/// above and below it.
pub open spec fn framed_table(list: Seq<Secret>) -> Seq<char> {
    seq!['\n'] + table_text(header_row(), rows_of(list)) + seq!['\n']
}

impl SecretList {
    /// The data rows of a table of these secrets, in list order.
    pub fn rows(&self) -> (r: Vec<Vec<String>>)
        ensures
            r.deep_view() == rows_of(self.list@),
    {
        let mut r: Vec<Vec<String>> = Vec::new();
        let mut i: usize = 0;
        while i < self.list.len()
            invariant
                i <= self.list@.len(),
                r.deep_view() == rows_of(self.list@.subrange(0, i as int)),
            decreases self.list@.len() - i,
        {
            let row = self.list[i].fields();
            let ghost before = r@;
            let ghost cells = row.deep_view();
            r.push(row);
            assert(r@ == before.push(row));
            assert(r.deep_view() =~= rows_of(self.list@.subrange(0, i as int)).push(cells));
            i = i + 1;
            assert(rows_of(self.list@.subrange(0, i as int)) =~= rows_of(
                self.list@.subrange(0, i - 1),
            ).push(row_of(self.list@[i - 1])));
        }
        assert(self.list@.subrange(0, i as int) =~= self.list@);
        r
    }

    /// These secrets as a table with the columns Name and Description, one
    /// row per secret in list order, with an empty line above and below.
    pub fn render_table(&self) -> (r: String)
        ensures
            r@ == framed_table(self.list@),
    {
        let header = Secret::headers();
        let rows = self.rows();
        let table = draw_table(&header, &rows);
        let mut r = String::from_str("\n");
        r.append(table.as_str());
        r.append("\n");
        proof {
            reveal_strlit("\n");
        }
        assert(r@ =~= framed_table(self.list@));
        r
    }
}

/// The display of a listing: every listed secret in a table.
pub fn list_secrets(secrets: &SecretList) -> (r: String)
    ensures
        r@ == framed_table(secrets.list@),
{
    secrets.render_table()
}

/// The display of a search: the secrets whose names hold `search_string`,
/// compared without regard to case, in a table; where none does, the search
/// fails with [`AsmError::NoMatch`].
pub fn search_secret(secrets: &SecretList, search_string: &str) -> (r: Result<String, AsmError>)
    ensures
        r is Err <==> matching(secrets.list@, search_string@).len() == 0,
        r matches Ok(text) ==> text@ == framed_table(
            matching(secrets.list@, search_string@),
        ),
        r matches Err(e) ==> (e matches AsmError::NoMatch { query } && query@ == search_string@),
{
    match search_all_secrets(secrets, search_string) {
        Ok(found) => Ok(found.render_table()),
        Err(e) => Err(e),
    }
}

} // verus!

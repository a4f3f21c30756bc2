//! The text of the rows of the password list and of the recipient list.
use vstd::prelude::*;
use crate::date::{UpdateDate, date_text, format_date, repeat_char, push_repeated};

verus! {

/// What a row of the password list shows of a password file: its name in the
/// store and the date of its last change, where the store's history has one.
#[derive(Clone, Debug)]
pub struct PasswordEntry {
    pub name: String,
    pub updated: Option<UpdateDate>,
}

/// The date column of a row: the date, or `n/a` where there is none.
pub open spec fn updated_text(updated: Option<UpdateDate>) -> Seq<char> {
    match updated {
        Some(d) => date_text(d),
        None => seq!['n', '/', 'a'],
    }
}

/// `text` with spaces after it, up to `width` characters (`{:width$}` on a string).
pub open spec fn space_padded(text: Seq<char>, width: nat) -> Seq<char> {
    if text.len() < width {
        text + repeat_char(' ', (width - text.len()) as nat)
    } else {
        text
    }
}

/// The name column is `col - 18` characters wide, so that a row fits a
/// screen of `col` columns; two spaces part it from the date column.
pub open spec fn name_width(col: nat) -> nat {
    (col - 18) as nat
}

/// The row of the password list for an entry on a screen `col` columns wide.
pub open spec fn label_text(name: Seq<char>, updated: Option<UpdateDate>, col: nat) -> Seq<char> {
    space_padded(name, name_width(col)) + seq![' ', ' '] + updated_text(updated)
}

/// The row of the password list for `p` on a screen `col` columns wide.
/// A screen narrower than 18 columns leaves the name column no width.
pub fn create_label(p: &PasswordEntry, col: usize) -> (r: String)
    requires
        col >= 18,
    ensures
        r@ == label_text(p.name@, p.updated, col as nat),
        ({
            let n = p.name@.len();
            let w: int = if n < col - 18 { col - 18 } else { n as int };
            &&& r@.subrange(0, n as int) == p.name@
            &&& forall|i: int| n <= i < w + 2 ==> #[trigger] r@[i] == ' '
            &&& p.updated matches Some(d) ==> r@.subrange(w + 2, r@.len() as int) == date_text(d)
            &&& p.updated is None ==> r@.subrange(w + 2, r@.len() as int) == seq!['n', '/', 'a']
        }),
{
    let width: usize = col - 10 - 8;
    let mut s = String::new();
    s.append(p.name.as_str());
    let len = p.name.as_str().unicode_len();
    if len < width {
        proof { reveal_strlit(" "); }
        push_repeated(&mut s, " ", width - len);
    }
    assert(s@ == space_padded(p.name@, name_width(col as nat)));
    proof {
        lemma_label_layout(p.name@, p.updated, col as nat);
        let n = p.name@.len();
        let w: int = if n < col - 18 { col - 18 } else { n as int };
        assert(forall|i: int| n <= i < w ==> #[trigger] s@[i] == ' ');
    }
    proof { reveal_strlit("  "); }
    s.append("  ");
    match &p.updated {
        Some(d) => {
            let text = format_date(d);
            s.append(text.as_str());
        },
        None => {
            proof { reveal_strlit("n/a"); }
            s.append("n/a");
        },
    }
    s
}

/// The rows of the password list for `entries`, in their order. An empty
/// list makes no row and so needs no width.
pub fn result_labels(entries: &Vec<PasswordEntry>, col: usize) -> (r: Vec<String>)
    requires
        entries@.len() > 0 ==> col >= 18,
    ensures
        r@.len() == entries@.len(),
        forall|i: int|
            0 <= i < entries@.len() ==> #[trigger] r@[i]@ == label_text(
                entries@[i].name@,
                entries@[i].updated,
                col as nat,
            ),
{
    let mut labels: Vec<String> = Vec::new();
    let mut i: usize = 0;
    while i < entries.len()
        invariant
            i <= entries@.len(),
            entries@.len() > 0 ==> col >= 18,
            labels@.len() == i,
            forall|j: int|
                0 <= j < i ==> #[trigger] labels@[j]@ == label_text(
                    entries@[j].name@,
                    entries@[j].updated,
                    col as nat,
                ),
        decreases entries@.len() - i,
    {
        let label = create_label(&entries[i], col);
        labels.push(label);
        i = i + 1;
    }
    labels
}

/// The row to add to the password list for a password just stored, read
/// back from the store: its row where it could be read, none where it could
/// not, and the list then stays as it is.
pub fn new_entry_row<E>(read_back: Result<PasswordEntry, E>, col: usize) -> (r: Option<String>)
    requires
        read_back is Ok ==> col >= 18,
    ensures
        match read_back {
            Ok(e) => r matches Some(row) && row@ == label_text(e.name@, e.updated, col as nat),
            Err(_) => r is None,
        },
{
    match read_back {
        Ok(e) => Some(create_label(&e, col)),
        Err(_) => None,
    }
}

/// What a row of the recipient list shows of a person who can read the store.
#[derive(Clone, Debug)]
pub struct Recipient {
    pub key_id: String,
    pub name: String,
}

/// The rows of the recipient list for `recipients`, in their order.
pub fn recipient_labels(recipients: &Vec<Recipient>) -> (r: Vec<String>)
    ensures
        r@.len() == recipients@.len(),
        forall|i: int|
            0 <= i < recipients@.len() ==> #[trigger] r@[i]@ == recipients@[i].key_id@ + seq![' ']
                + recipients@[i].name@,
{
    let mut labels: Vec<String> = Vec::new();
    let mut i: usize = 0;
    while i < recipients.len()
        invariant
            i <= recipients@.len(),
            labels@.len() == i,
            forall|j: int|
                0 <= j < i ==> #[trigger] labels@[j]@ == recipients@[j].key_id@ + seq![' ']
                    + recipients@[j].name@,
        decreases recipients@.len() - i,
    {
        let label = recipient_label(recipients[i].key_id.as_str(), recipients[i].name.as_str());
        labels.push(label);
        i = i + 1;
    }
    labels
}

/// The row of the recipient list: the key id, a space and the person's name.
pub fn recipient_label(key_id: &str, name: &str) -> (r: String)
    ensures
        r@ == key_id@ + seq![' '] + name@,
{
    let mut s = String::from_str(key_id);
    proof { reveal_strlit(" "); }
    s.append(" ");
    s.append(name);
    s
}

/// Whatever the name and the date, the date column of a row starts right
/// after the name column and the two spaces that follow it; and the name
/// column is never narrower than `col - 18`.
pub proof fn lemma_label_layout(name: Seq<char>, updated: Option<UpdateDate>, col: nat)
    requires
        col >= 18,
    ensures
        ({
            let label = label_text(name, updated, col);
            let w = if name.len() < col - 18 { (col - 18) as nat } else { name.len() };
            &&& label.len() == w + 2 + updated_text(updated).len()
            &&& label.subrange(0, name.len() as int) == name
            &&& label.subrange(w as int, w + 2int) == seq![' ', ' ']
            &&& label.subrange(w + 2int, label.len() as int) == updated_text(updated)
            &&& updated matches Some(d) ==> label.subrange(w + 2int, label.len() as int) == date_text(d)
            &&& updated is None ==> label.subrange(w + 2int, label.len() as int) == seq!['n', '/', 'a']
        }),
{
    let label = label_text(name, updated, col);
    let w = if name.len() < col - 18 { (col - 18) as nat } else { name.len() };
    let padded = space_padded(name, name_width(col));
    assert(padded.len() == w);
    assert(padded.subrange(0, name.len() as int) =~= name);
    assert(label =~= padded + (seq![' ', ' '] + updated_text(updated)));
    assert(label.subrange(0, name.len() as int) =~= padded.subrange(0, name.len() as int));
    assert(label.subrange(w as int, w + 2int) =~= seq![' ', ' ']);
    assert(label.subrange(w + 2int, label.len() as int) =~= updated_text(updated));
}

/// On one screen, the rows of all entries whose names fit the name column put
/// their date column at the same place, `col - 16`.
pub proof fn lemma_labels_align(
    name1: Seq<char>,
    updated1: Option<UpdateDate>,
    name2: Seq<char>,
    updated2: Option<UpdateDate>,
    col: nat,
)
    requires
        col >= 18,
        name1.len() <= col - 18,
        name2.len() <= col - 18,
    ensures
        label_text(name1, updated1, col).len() == col - 16 + updated_text(updated1).len(),
        label_text(name2, updated2, col).len() == col - 16 + updated_text(updated2).len(),
        label_text(name1, updated1, col).subrange(col - 16, label_text(name1, updated1, col).len() as int)
            == updated_text(updated1),
        label_text(name2, updated2, col).subrange(col - 16, label_text(name2, updated2, col).len() as int)
            == updated_text(updated2),
{
    lemma_label_layout(name1, updated1, col);
    lemma_label_layout(name2, updated2, col);
}

} // verus!

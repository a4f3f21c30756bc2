//! The text fields of an open dialog, each found by the name it was given,
//! and what the "add a password" dialog asks of them.
use vstd::prelude::*;
use std::rc::Rc;

verus! {

/// The contents of the named text fields of a dialog, in the order in which
/// the dialog holds them.
pub struct TextInputs {
    fields: Vec<(String, String)>,
}

impl View for TextInputs {
    type V = Seq<(Seq<char>, Seq<char>)>;

    closed spec fn view(&self) -> Seq<(Seq<char>, Seq<char>)> {
        self.fields@.map_values(|f: (String, String)| (f.0@, f.1@))
    }
}

/// The contents of the first field named `name`, if there is one.
pub open spec fn lookup(fields: Seq<(Seq<char>, Seq<char>)>, name: Seq<char>) -> Option<Seq<char>>
    decreases fields.len(),
{
    if fields.len() == 0 {
        None
    } else if fields[0].0 == name {
        Some(fields[0].1)
    } else {
        lookup(fields.drop_first(), name)
    }
}

/// The name of the field that holds a new password.
pub open spec fn new_password_field() -> Seq<char> {
    "new_password_input"@
}

/// The name of the field that holds the name of a new password.
pub open spec fn new_path_field() -> Seq<char> {
    "new_path_input"@
}

impl TextInputs {
    /// A dialog with no text fields.
    pub fn new() -> (r: TextInputs)
        ensures
            r@ == Seq::<(Seq<char>, Seq<char>)>::empty(),
    {
        let r = TextInputs { fields: Vec::new() };
        assert(r@ =~= Seq::<(Seq<char>, Seq<char>)>::empty());
        r
    }

    /// Adds a field named `name` that holds `content` after the others.
    pub fn add(&mut self, name: &str, content: &str)
        ensures
            final(self)@ == old(self)@.push((name@, content@)),
    {
        self.fields.push((String::from_str(name), String::from_str(content)));
        assert(self@ =~= old(self)@.push((name@, content@)));
    }
}

/// Adding a field changes what a name finds only where no earlier field
/// had that name: the first field of a name is the one that counts.
pub proof fn lemma_lookup_after_add(
    fields: Seq<(Seq<char>, Seq<char>)>,
    name: Seq<char>,
    content: Seq<char>,
    asked: Seq<char>,
)
    ensures
        lookup(fields.push((name, content)), asked) == if lookup(fields, asked) is Some {
            lookup(fields, asked)
        } else if asked == name {
            Some(content)
        } else {
            None
        },
    decreases fields.len(),
{
    let pushed = fields.push((name, content));
    if fields.len() > 0 {
        assert(pushed[0] == fields[0]);
        assert(pushed.drop_first() =~= fields.drop_first().push((name, content)));
        lemma_lookup_after_add(fields.drop_first(), name, content, asked);
        if fields[0].0 == asked {
            assert(lookup(pushed, asked) == Some(fields[0].1));
            assert(lookup(fields, asked) == Some(fields[0].1));
        } else {
            assert(lookup(pushed, asked) == lookup(pushed.drop_first(), asked));
            assert(lookup(fields, asked) == lookup(fields.drop_first(), asked));
        }
    } else {
        assert(pushed[0] == (name, content));
        assert(pushed.drop_first() =~= Seq::<(Seq<char>, Seq<char>)>::empty());
    }
}

/// The contents of the text field named `input_name`: `None` where the
/// dialog has no field of that name; where several have it, the first.
pub fn get_value_from_input(s: &TextInputs, input_name: &str) -> (r: Option<Rc<String>>)
    ensures
        match r {
            Some(v) => lookup(s@, input_name@) == Some(v@),
            None => lookup(s@, input_name@) is None,
        },
        r matches Some(v) ==> exists|i: int|
            0 <= i < s@.len() && s@[i].0 == input_name@ && s@[i].1 == v@ && forall|j: int|
                0 <= j < i ==> #[trigger] s@[j].0 != input_name@,
        r is None ==> forall|i: int| 0 <= i < s@.len() ==> #[trigger] s@[i].0 != input_name@,
{
    let wanted = String::from_str(input_name);
    let mut i: usize = 0;
    assert(s@.subrange(0, s@.len() as int) =~= s@);
    while i < s.fields.len()
        invariant
            i <= s.fields@.len(),
            wanted@ == input_name@,
            lookup(s@, input_name@) == lookup(s@.subrange(i as int, s@.len() as int), input_name@),
            forall|j: int| 0 <= j < i ==> #[trigger] s@[j].0 != input_name@,
        decreases s.fields@.len() - i,
    {
        let ghost rest = s@.subrange(i as int, s@.len() as int);
        assert(rest[0] == (s.fields@[i as int].0@, s.fields@[i as int].1@));
        if s.fields[i].0 == wanted {
            let found = Rc::new(s.fields[i].1.clone());
            assert(s@[i as int].0 == input_name@ && s@[i as int].1 == found@);
            return Some(found);
        }
        assert(rest.drop_first() =~= s@.subrange(i + 1, s@.len() as int));
        i = i + 1;
    }
    assert(s@.subrange(i as int, s@.len() as int) =~= Seq::<(Seq<char>, Seq<char>)>::empty());
    None
}

/// The name and the password that the "add a password" dialog asks to store.
#[derive(Debug)]
pub struct NewEntry {
    pub path: String,
    pub password: String,
}

/// Whether the dialog's fields ask to store a password, and which: both the
/// password field and the name field must be there and not empty.
pub open spec fn new_entry_of(fields: Seq<(Seq<char>, Seq<char>)>) -> Option<(Seq<char>, Seq<char>)> {
    match (lookup(fields, new_path_field()), lookup(fields, new_password_field())) {
        (Some(path), Some(password)) => if path.len() > 0 && password.len() > 0 {
            Some((path, password))
        } else {
            None
        },
        _ => None,
    }
}

/// What the "add a password" dialog asks to store, read from its fields;
/// `None` where it asks nothing, and the dialog stays as it is.
pub fn new_entry_request(s: &TextInputs) -> (r: Option<NewEntry>)
    ensures
        match r {
            Some(e) => new_entry_of(s@) == Some((e.path@, e.password@)),
            None => new_entry_of(s@) is None,
        },
        r matches Some(e) ==> {
            &&& lookup(s@, "new_path_input"@) == Some(e.path@)
            &&& lookup(s@, "new_password_input"@) == Some(e.password@)
            &&& e.path@.len() > 0
            &&& e.password@.len() > 0
        },
        match (lookup(s@, "new_path_input"@), lookup(s@, "new_password_input"@)) {
            (Some(a), Some(b)) => (a.len() > 0 && b.len() > 0) ==> (r matches Some(e)
                && e.path@ == a && e.password@ == b),
            _ => r is None,
        },
{
    let password = match get_value_from_input(s, "new_password_input") {
        Some(p) => p,
        None => return None,
    };
    if password.as_str().unicode_len() == 0 {
        return None;
    }
    let path = match get_value_from_input(s, "new_path_input") {
        Some(p) => p,
        None => return None,
    };
    if path.as_str().unicode_len() == 0 {
        return None;
    }
    Some(NewEntry { path: (*path).clone(), password: (*password).clone() })
}

/// The "add a password" dialog asks to store a password exactly when both
/// its name field and its password field are there and filled in, whatever
/// they hold; and it asks to store those two texts, unchanged.
pub proof fn lemma_new_entry_needs_both_fields(
    fields: Seq<(Seq<char>, Seq<char>)>,
    path: Seq<char>,
    password: Seq<char>,
)
    ensures
        (lookup(fields, "new_path_input"@) == Some(path) && lookup(fields, "new_password_input"@)
            == Some(password) && path.len() > 0 && password.len() > 0) ==> new_entry_of(fields)
            == Some((path, password)),
        new_entry_of(fields) == Some((path, password)) ==> (lookup(fields, "new_path_input"@)
            == Some(path) && lookup(fields, "new_password_input"@) == Some(password) && path.len()
            > 0 && password.len() > 0),
        (lookup(fields, "new_path_input"@) == Some(Seq::<char>::empty())) ==> new_entry_of(
            fields,
        ) is None,
        (lookup(fields, "new_password_input"@) == Some(Seq::<char>::empty())) ==> new_entry_of(
            fields,
        ) is None,
        lookup(fields, "new_path_input"@) is None ==> new_entry_of(fields) is None,
        lookup(fields, "new_password_input"@) is None ==> new_entry_of(fields) is None,
{
}

} // verus!

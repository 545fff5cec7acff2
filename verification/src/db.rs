use crate::model::{
    spec_external_id, status_name, status_of_name, Task, TaskStatus, TaskView,
};
use crate::text::{find_char, first_index_of, lemma_first_index_of, str_eq};
use vstd::prelude::*;
use vstd::string::{StrSliceExecFns, StringExecFns};

verus! {

/// The error a repository operation reports when the backing store fails
/// or an item read back is unusable.
#[derive(Clone, Copy, Debug, PartialEq, Eq, Structural)]
pub struct DatabaseError;

/// One attribute value of a stored item: the backing store tags each value
/// with its kind, and this repository only ever reads string values. A
/// value of any other kind is kept opaque.
pub enum AttrValue {
    S(String),
    Other,
}

/// The mathematical value of an attribute: the characters of a string
/// value, or the mark of a value of some other kind.
pub enum AttrValueView {
    S(Seq<char>),
    Other,
}

impl View for AttrValue {
    type V = AttrValueView;

    open spec fn view(&self) -> AttrValueView {
        match self {
            AttrValue::S(s) => AttrValueView::S(s@),
            AttrValue::Other => AttrValueView::Other,
        }
    }
}

/// A stored item: named attributes, as the backing store holds them for
/// one key. Lookups take the first attribute with a matching name.
pub struct Item {
    pub attrs: Vec<(String, AttrValue)>,
}

impl View for Item {
    type V = Seq<(Seq<char>, AttrValueView)>;

    open spec fn view(&self) -> Seq<(Seq<char>, AttrValueView)> {
        self.attrs@.map_values(|p: (String, AttrValue)| (p.0@, p.1@))
    }
}

/// The first attribute named `key` in `attrs` at or after position `from`.
pub open spec fn lookup_from(
    attrs: Seq<(Seq<char>, AttrValueView)>,
    key: Seq<char>,
    from: int,
) -> Option<AttrValueView>
    decreases attrs.len() - from,
{
    if from < 0 || from >= attrs.len() {
        None
    } else if attrs[from].0 == key {
        Some(attrs[from].1)
    } else {
        lookup_from(attrs, key, from + 1)
    }
}

/// The first attribute named `key` in `attrs`, if there is one.
pub open spec fn lookup(attrs: Seq<(Seq<char>, AttrValueView)>, key: Seq<char>) -> Option<
    AttrValueView,
> {
    lookup_from(attrs, key, 0)
}

/// The text of the attribute named `key`: `None` when the attribute is
/// absent or is not a string value.
pub open spec fn text_attr(attrs: Seq<(Seq<char>, AttrValueView)>, key: Seq<char>) -> Option<
    Seq<char>,
> {
    match lookup(attrs, key) {
        Some(AttrValueView::S(s)) => Some(s),
        _ => None,
    }
}

/// The value of the attribute named `key` in `item`: `Ok(Some(..))` for a
/// string value, `Ok(None)` when the attribute is absent, and an error
/// when it holds a value of another kind.
pub fn extract_value(key: &str, item: &Item) -> (r: Result<Option<String>, DatabaseError>)
    ensures
        match r {
            Ok(Some(s)) => lookup(item@, key@) == Some(AttrValueView::S(s@)),
            Ok(None) => lookup(item@, key@) is None,
            Err(e) => lookup(item@, key@) == Some(AttrValueView::Other),
        },
{
    let n = item.attrs.len();
    let mut i: usize = 0;
    while i < n
        invariant
            n == item.attrs@.len(),
            item@.len() == n,
            0 <= i <= n,
            lookup(item@, key@) == lookup_from(item@, key@, i as int),
        decreases n - i,
    {
        proof {
            assert(item@[i as int] == (item.attrs@[i as int].0@, item.attrs@[i as int].1@));
        }
        if str_eq(key, item.attrs[i].0.as_str()) {
            match &item.attrs[i].1 {
                AttrValue::S(s) => {
                    return Ok(Some(s.clone()));
                },
                AttrValue::Other => {
                    return Err(DatabaseError);
                },
            }
        }
        i = i + 1;
    }
    Ok(None)
}

/// The string value of the attribute named `key` in `item`, or an error
/// when the attribute is absent or holds a value of another kind.
pub fn get_value(key: &str, item: &Item) -> (r: Result<String, DatabaseError>)
    ensures
        match r {
            Ok(s) => text_attr(item@, key@) == Some(s@),
            Err(e) => text_attr(item@, key@) is None,
        },
{
    match extract_value(key, item) {
        Ok(Some(value)) => Ok(value),
        Ok(None) => Err(DatabaseError),
        Err(e) => Err(e),
    }
}

/// The task a stored item denotes, if it denotes one: the item must carry
/// string attributes `pK` (the task id), `sK` (the owner id), `title` and
/// `status`, and the `status` text must be a canonical status name. The
/// `description` attribute alone may be absent, in which case the task's
/// description is the empty string; but if present it must be a string
/// value.
pub open spec fn parse_entry(attrs: Seq<(Seq<char>, AttrValueView)>) -> Option<TaskView> {
    match text_attr(attrs, "status"@) {
        None => None,
        Some(status_text) => match status_of_name(status_text) {
            None => None,
            Some(status) => {
                if lookup(attrs, "description"@) == Some(AttrValueView::Other) {
                    None
                } else {
                    let description = match lookup(attrs, "description"@) {
                        Some(AttrValueView::S(d)) => d,
                        _ => Seq::<char>::empty(),
                    };
                    match (text_attr(attrs, "sK"@), text_attr(attrs, "pK"@), text_attr(
                        attrs,
                        "title"@,
                    )) {
                        (Some(user_id), Some(task_id), Some(title)) => Some(
                            TaskView { user_id, task_id, title, description, status },
                        ),
                        _ => None,
                    }
                }
            },
        },
    }
}

/// Reads a task back out of a stored item, exactly when `parse_entry`
/// accepts the item's attributes. A missing `description` defaults to the
/// empty string; every other defect is folded into the one error.
pub fn create_task_from_entry(item: &Item) -> (r: Result<Task, DatabaseError>)
    ensures
        match r {
            Ok(task) => parse_entry(item@) == Some(task@),
            Err(e) => parse_entry(item@) is None,
        },
{
    let status_text = match get_value("status", item) {
        Ok(value) => value,
        Err(e) => {
            return Err(e);
        },
    };
    let status = match TaskStatus::from_name(status_text.as_str()) {
        Some(value) => value,
        None => {
            return Err(DatabaseError);
        },
    };
    let description = match extract_value("description", item) {
        Ok(value) => value,
        Err(e) => {
            return Err(e);
        },
    };
    let user_id = match get_value("sK", item) {
        Ok(value) => value,
        Err(e) => {
            return Err(e);
        },
    };
    let task_id = match get_value("pK", item) {
        Ok(value) => value,
        Err(e) => {
            return Err(e);
        },
    };
    let title = match get_value("title", item) {
        Ok(value) => value,
        Err(e) => {
            return Err(e);
        },
    };
    Ok(Task {
        user_id,
        task_id,
        title,
        description: match description {
            Some(d) => d,
            None => String::new(),
        },
        status,
    })
}

/// The attributes this repository writes for a task: the task id as the
/// partition key `pK`, the owner id as the sort key `sK`, then `title`,
/// `description` and the canonical `status` name.
pub open spec fn item_of(task: TaskView) -> Seq<(Seq<char>, AttrValueView)> {
    seq![
        ("pK"@, AttrValueView::S(task.task_id)),
        ("sK"@, AttrValueView::S(task.user_id)),
        ("title"@, AttrValueView::S(task.title)),
        ("description"@, AttrValueView::S(task.description)),
        ("status"@, AttrValueView::S(status_name(task.status))),
    ]
}

/// Serializes a task into the item this repository stores for it.
pub fn task_to_item(task: &Task) -> (item: Item)
    ensures
        item@ == item_of(task@),
{
    let mut attrs: Vec<(String, AttrValue)> = Vec::new();
    attrs.push((String::from_str("pK"), AttrValue::S(task.task_id.clone())));
    attrs.push((String::from_str("sK"), AttrValue::S(task.user_id.clone())));
    attrs.push((String::from_str("title"), AttrValue::S(task.title.clone())));
    attrs.push((String::from_str("description"), AttrValue::S(task.description.clone())));
    attrs.push((String::from_str("status"), AttrValue::S(task.status.name())));
    let item = Item { attrs };
    proof {
        assert(item@ =~= item_of(task@));
    }
    item
}

/// The owner and task components of an external identifier: the part
/// before the first underscore and everything after it. `None` when the
/// identifier contains no underscore at all. Splitting at the first
/// underscore only means a task id may itself contain underscores, while
/// an owner id must not for the identifier to split back unambiguously.
pub open spec fn spec_split_id(id: Seq<char>) -> Option<(Seq<char>, Seq<char>)> {
    match first_index_of(id, '_') {
        None => None,
        Some(i) => Some((id.subrange(0, i), id.subrange(i + 1, id.len() as int))),
    }
}

/// Splits an external identifier at its first underscore into the owner
/// component and the task component.
pub fn split_external_id(id: &str) -> (r: Option<(String, String)>)
    ensures
        match r {
            Some(parts) => spec_split_id(id@) == Some((parts.0@, parts.1@)),
            None => spec_split_id(id@) is None,
        },
{
    let n = id.unicode_len();
    match find_char(id, '_') {
        None => None,
        Some(i) => {
            proof {
                lemma_first_index_of(id@, '_', 0);
            }
            let owner = id.substring_char(0, i);
            let task = id.substring_char(i + 1, n);
            Some((String::from_str(owner), String::from_str(task)))
        },
    }
}

/// An in-memory table with the single-item semantics of the partitioned
/// key-value backing store: `put_item` creates or fully replaces the item
/// stored under a key, later writes win, and a point lookup sees only the
/// latest item. Its value is the map from keys to stored items.
pub struct TaskTable {
    entries: Vec<(String, Item)>,
}

impl TaskTable {
    /// The item most recently stored under `key` among the first `upto`
    /// entries, if any.
    spec fn stored_upto(entries: Seq<(String, Item)>, key: Seq<char>, upto: int) -> Option<
        Seq<(Seq<char>, AttrValueView)>,
    >
        decreases upto,
    {
        if upto <= 0 || upto > entries.len() {
            None
        } else if entries[upto - 1].0@ == key {
            Some(entries[upto - 1].1@)
        } else {
            Self::stored_upto(entries, key, upto - 1)
        }
    }

    /// The item most recently stored under `key`, if any.
    spec fn stored(entries: Seq<(String, Item)>, key: Seq<char>) -> Option<
        Seq<(Seq<char>, AttrValueView)>,
    > {
        Self::stored_upto(entries, key, entries.len() as int)
    }

    /// A fresh, empty table.
    pub fn new() -> (t: TaskTable)
        ensures
            t@ == Map::<Seq<char>, Seq<(Seq<char>, AttrValueView)>>::empty(),
    {
        let t = TaskTable { entries: Vec::new() };
        proof {
            assert(t@ =~= Map::<Seq<char>, Seq<(Seq<char>, AttrValueView)>>::empty());
        }
        t
    }

    /// Writes `item` under `key`, creating or fully replacing the item
    /// stored there; no partial-field update takes place.
    pub fn put_item(&mut self, key: String, item: Item)
        ensures
            final(self)@ == old(self)@.insert(key@, item@),
    {
        proof {
            let pushed = self.entries@.push((key, item));
            assert forall|k: Seq<char>| #![all_triggers] true implies Self::stored(pushed, k)
                == (if k == key@ {
                Some(item@)
            } else {
                Self::stored(self.entries@, k)
            }) by {
                Self::lemma_stored_push(self.entries@, key, item, k);
            }
        }
        self.entries.push((key, item));
        proof {
            assert(final(self)@ =~= old(self)@.insert(key@, item@));
        }
    }

    /// Pushing one entry changes what is stored under its key alone.
    proof fn lemma_stored_push(entries: Seq<(String, Item)>, key: String, item: Item, k: Seq<char>)
        ensures
            Self::stored(entries.push((key, item)), k) == (if k == key@ {
                Some(item@)
            } else {
                Self::stored(entries, k)
            }),
    {
        let pushed = entries.push((key, item));
        assert(pushed[pushed.len() - 1] == (key, item));
        if k != key@ {
            Self::lemma_stored_upto_agree(entries, pushed, k, entries.len() as int);
        }
    }

    /// Two entry sequences that agree below `upto` store the same item
    /// under every key there.
    proof fn lemma_stored_upto_agree(
        a: Seq<(String, Item)>,
        b: Seq<(String, Item)>,
        k: Seq<char>,
        upto: int,
    )
        requires
            upto <= a.len(),
            upto <= b.len(),
            forall|j: int| 0 <= j < upto ==> a[j] == b[j],
        ensures
            Self::stored_upto(a, k, upto) == Self::stored_upto(b, k, upto),
        decreases upto,
    {
        if upto > 0 {
            Self::lemma_stored_upto_agree(a, b, k, upto - 1);
        }
    }

    /// Serializes `task` and writes the item under the task's id. Against
    /// this in-memory table the write cannot fail; the error type is part
    /// of the repository contract that store-backed implementations share.
    pub fn put_task(&mut self, task: Task) -> (r: Result<(), DatabaseError>)
        ensures
            r is Ok,
            final(self)@ == old(self)@.insert(task.task_id@, item_of(task@)),
    {
        let key = task.task_id.clone();
        let item = task_to_item(&task);
        self.put_item(key, item);
        Ok(())
    }

    /// What fetching `id` returns: nothing when `id` has no underscore to
    /// split at, nothing when no item is stored under the task component,
    /// and otherwise whatever task the stored item denotes.
    pub open spec fn spec_get_task(
        contents: Map<Seq<char>, Seq<(Seq<char>, AttrValueView)>>,
        id: Seq<char>,
    ) -> Option<TaskView> {
        match spec_split_id(id) {
            None => None,
            Some(parts) => if contents.contains_key(parts.1) {
                parse_entry(contents[parts.1])
            } else {
                None
            },
        }
    }

    /// Fetches the task stored under the task component of `id`. Returns
    /// `None` alike when the identifier does not split, when nothing is
    /// stored under the key, and when the stored item does not denote a
    /// task; a caller cannot tell the three apart.
    pub fn get_task(&self, id: &str) -> (r: Option<Task>)
        ensures
            match r {
                Some(task) => Self::spec_get_task(self@, id@) == Some(task@),
                None => Self::spec_get_task(self@, id@) is None,
            },
    {
        let parts = match split_external_id(id) {
            Some(parts) => parts,
            None => {
                return None;
            },
        };
        let n = self.entries.len();
        let mut i: usize = n;
        while i > 0
            invariant
                n == self.entries@.len(),
                0 <= i <= n,
                spec_split_id(id@) == Some((parts.0@, parts.1@)),
                Self::stored(self.entries@, parts.1@) == Self::stored_upto(
                    self.entries@,
                    parts.1@,
                    i as int,
                ),
            decreases i,
        {
            i = i - 1;
            if self.entries[i].0 == parts.1 {
                assert(self@.contains_key(parts.1@));
                assert(self@[parts.1@] == self.entries@[i as int].1@);
                return match create_task_from_entry(&self.entries[i].1) {
                    Ok(task) => Some(task),
                    Err(_) => None,
                };
            }
        }
        None
    }
}

/// Reading back the item written for a task yields that task exactly: the
/// five attributes written by `item_of` parse back to the very field
/// values they were written from, with no field altered and none lost.
pub proof fn lemma_parse_item_of(task: TaskView)
    ensures
        parse_entry(item_of(task)) == Some(task),
{
    reveal_with_fuel(lookup_from, 7);
    reveal_strlit("pK");
    reveal_strlit("sK");
    reveal_strlit("title");
    reveal_strlit("description");
    reveal_strlit("status");
    assert("pK"@.len() == 2);
    assert("sK"@.len() == 2);
    assert("title"@.len() == 5);
    assert("description"@.len() == 11);
    assert("status"@.len() == 6);
    assert("pK"@ != "sK"@) by {
        assert("pK"@[0] == 'p');
        assert("sK"@[0] == 's');
    }
    crate::model::lemma_status_name_round_trip(task.status);
    assert(text_attr(item_of(task), "status"@) == Some(status_name(task.status)));
    assert(text_attr(item_of(task), "sK"@) == Some(task.user_id));
    assert(text_attr(item_of(task), "pK"@) == Some(task.task_id));
    assert(text_attr(item_of(task), "title"@) == Some(task.title));
    assert(lookup(item_of(task), "description"@) == Some(AttrValueView::S(task.description)));
}

/// The identifier scheme round-trips through the key splitting: as long as
/// the owner id contains no underscore, the external identifier built from
/// an owner id and a task id splits back into exactly those two components.
pub proof fn lemma_split_external_id_round_trip(user_id: Seq<char>, task_id: Seq<char>)
    requires
        !user_id.contains('_'),
    ensures
        spec_split_id(spec_external_id(user_id, task_id)) == Some((user_id, task_id)),
{
    let full = spec_external_id(user_id, task_id);
    assert(forall|j: int| 0 <= j < user_id.len() ==> full[j] == user_id[j] && full[j] != '_');
    crate::text::lemma_first_index_skip(full, '_', 0, user_id.len() as int);
    assert(full[user_id.len() as int] == '_');
    assert(first_index_of(full, '_') == Some(user_id.len() as int));
    assert(full.subrange(0, user_id.len() as int) =~= user_id);
    assert(full.subrange(user_id.len() as int + 1, full.len() as int) =~= task_id);
}

/// Putting a task and then fetching it under its own external identifier
/// returns a task equal to the stored one in all fields, whatever the
/// table held before, as long as the owner id contains no underscore.
pub proof fn lemma_put_get_round_trip(
    contents: Map<Seq<char>, Seq<(Seq<char>, AttrValueView)>>,
    task: TaskView,
)
    requires
        !task.user_id.contains('_'),
    ensures
        TaskTable::spec_get_task(
            contents.insert(task.task_id, item_of(task)),
            spec_external_id(task.user_id, task.task_id),
        ) == Some(task),
{
    lemma_split_external_id_round_trip(task.user_id, task.task_id);
    lemma_parse_item_of(task);
}

/// Fetching an identifier under whose task component nothing is stored
/// returns nothing.
pub proof fn lemma_get_absent(
    contents: Map<Seq<char>, Seq<(Seq<char>, AttrValueView)>>,
    id: Seq<char>,
)
    requires
        spec_split_id(id) matches Some(parts) ==> !contents.contains_key(parts.1),
    ensures
        TaskTable::spec_get_task(contents, id) is None,
{
}

/// Later writes win: after two tasks with the same task id are put in
/// turn, a fetch reflects only the second, whatever the table held before.
pub proof fn lemma_last_write_wins(
    contents: Map<Seq<char>, Seq<(Seq<char>, AttrValueView)>>,
    first: TaskView,
    second: TaskView,
)
    requires
        first.task_id == second.task_id,
        !second.user_id.contains('_'),
    ensures
        TaskTable::spec_get_task(
            contents.insert(first.task_id, item_of(first)).insert(second.task_id, item_of(second)),
            spec_external_id(second.user_id, second.task_id),
        ) == Some(second),
{
    lemma_put_get_round_trip(contents.insert(first.task_id, item_of(first)), second);
}

/// An item without a `description` attribute that still denotes a task
/// denotes one whose description is the empty string.
pub proof fn lemma_missing_description_defaults_empty(attrs: Seq<(Seq<char>, AttrValueView)>)
    requires
        lookup(attrs, "description"@) is None,
        parse_entry(attrs) is Some,
    ensures
        parse_entry(attrs) matches Some(task) && task.description == Seq::<char>::empty(),
{
}

/// An item whose `status` attribute is not one of the four canonical
/// status names denotes no task, so a fetch that finds it returns nothing.
pub proof fn lemma_unknown_status_rejected(attrs: Seq<(Seq<char>, AttrValueView)>)
    requires
        text_attr(attrs, "status"@) matches Some(name) ==> status_of_name(name) is None,
    ensures
        parse_entry(attrs) is None,
{
}

impl View for TaskTable {
    type V = Map<Seq<char>, Seq<(Seq<char>, AttrValueView)>>;

    closed spec fn view(&self) -> Map<Seq<char>, Seq<(Seq<char>, AttrValueView)>> {
        Map::new(
            |k: Seq<char>| Self::stored(self.entries@, k) is Some,
            |k: Seq<char>| Self::stored(self.entries@, k)->0,
        )
    }
}

} // verus!

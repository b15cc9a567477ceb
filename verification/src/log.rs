use vstd::prelude::*;

verus! {

/// The kind of change an operation makes to the key/value store.
#[allow(non_camel_case_types)]
#[derive(PartialEq, Eq, Structural, Clone, Copy, Debug)]
pub enum OpType {
    INSERT,
    UPDATE,
    DELETE,
}

/// The key an operation touches and, unless it removes the key, its new value.
#[derive(Debug)]
pub struct Entry {
    pub key: String,
    pub value: Option<String>,
}

/// One entry of the replicated log: the term it was created in and the change.
#[derive(Debug)]
pub struct Operation {
    pub term: i64,
    pub optype: OpType,
    pub entry: Entry,
}

/// The operation of `term` that inserts `key` with `value`.
pub open spec fn insert_op(term: i64, key: String, value: String) -> Operation {
    Operation { term, optype: OpType::INSERT, entry: Entry { key, value: Some(value) } }
}

/// The operation of `term` that sets `key` to `value`.
pub open spec fn update_op(term: i64, key: String, value: String) -> Operation {
    Operation { term, optype: OpType::UPDATE, entry: Entry { key, value: Some(value) } }
}

/// The operation of `term` that removes `key`: a deletion carries no value
/// and the `UPDATE` kind.
pub open spec fn delete_op(term: i64, key: String) -> Operation {
    Operation { term, optype: OpType::UPDATE, entry: Entry { key, value: None } }
}

impl Operation {
    /// An operation of `term` that inserts `key` with `value`.
    pub fn insert(term: i64, key: String, value: String) -> (op: Self)
        ensures
            op == insert_op(term, key, value),
    {
        Operation { term, optype: OpType::INSERT, entry: Entry { key, value: Some(value) } }
    }

    /// An operation of `term` that sets `key` to `value`.
    pub fn update(term: i64, key: String, value: String) -> (op: Self)
        ensures
            op == update_op(term, key, value),
    {
        Operation { term, optype: OpType::UPDATE, entry: Entry { key, value: Some(value) } }
    }

    /// An operation of `term` that removes `key`: a deletion carries no
    /// value and the `UPDATE` kind.
    pub fn delete(term: i64, key: String) -> (op: Self)
        ensures
            op == delete_op(term, key),
    {
        Operation { term, optype: OpType::UPDATE, entry: Entry { key, value: None } }
    }
}

/// The ordered list of operations a node has accepted.
pub struct OperationLog {
    operations: Vec<Operation>,
}

impl View for OperationLog {
    type V = Seq<Operation>;

    closed spec fn view(&self) -> Seq<Operation> {
        self.operations@
    }
}

/// The term stored at `index`, or 0 for a log with no operations.
pub open spec fn term_at(ops: Seq<Operation>, index: int) -> i64 {
    if ops.len() == 0 {
        0
    } else {
        ops[index].term
    }
}

impl OperationLog {
    /// An empty log.
    pub fn new() -> (log: Self)
        ensures
            log@ == Seq::<Operation>::empty(),
    {
        OperationLog { operations: Vec::new() }
    }

    /// Adds `operation` at the end of the log.
    pub fn append(&mut self, operation: Operation)
        ensures
            final(self)@ == old(self)@.push(operation),
    {
        self.operations.push(operation);
    }

    /// The operation at position `index`.
    pub fn get(&self, index: usize) -> (op: &Operation)
        requires
            index < self@.len(),
        ensures
            *op == self@[index as int],
    {
        &self.operations[index]
    }

    /// All operations, oldest first.
    pub fn all(&self) -> (ops: &[Operation])
        ensures
            ops@ == self@,
    {
        self.operations.as_slice()
    }

    /// The position of the newest operation; the log must not be empty.
    pub fn last_index(&self) -> (i: usize)
        requires
            self@.len() > 0,
        ensures
            i == self@.len() - 1,
    {
        self.operations.len() - 1
    }

    /// The term of the newest operation; the log must not be empty.
    pub fn last_term(&self) -> (t: i64)
        requires
            self@.len() > 0,
        ensures
            t == self@.last().term,
            t == term_at(self@, self@.len() - 1),
    {
        self.term_for(self.last_index())
    }

    /// The term of the operation at `index`, or 0 when the log is empty.
    pub fn term_for(&self, index: usize) -> (t: i64)
        requires
            self@.len() == 0 || index < self@.len(),
        ensures
            t == term_at(self@, index as int),
    {
        if self.operations.len() == 0 {
            0i64
        } else {
            self.operations[index].term
        }
    }

    /// Drops every operation from position `start_index` on.
    pub fn truncate(&mut self, start_index: usize)
        requires
            start_index <= old(self)@.len(),
        ensures
            final(self)@ == old(self)@.subrange(0, start_index as int),
    {
        self.operations.truncate(start_index);
    }
}

} // verus!

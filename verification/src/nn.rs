//! Host-side bookkeeping for the neural-network API: the handle table
//! that maps small integer handles to backend resources, and the error
//! and identification types around it.

use vstd::prelude::*;

verus! {

/// The serialization format of a graph (an ML model).
#[derive(Clone, Copy, Debug, PartialEq, Eq, Structural)]
pub enum GraphEncoding {
    /// OpenVINO's intermediate representation.
    OpenVINO,
    /// The ONNX exchange format.
    ONNX,
    /// A TensorFlow saved model.
    Tensorflow,
    /// A PyTorch model.
    PyTorch,
    /// A TensorFlow Lite model.
    TensorflowLite,
}

/// A misuse of the API, reported to the guest.
#[derive(Clone, Debug)]
pub enum UsageError {
    /// The host context was never initialized.
    InvalidContext,
    /// The passed encoding is not supported.
    InvalidEncoding(GraphEncoding),
    /// The backend expects a different number of builders.
    InvalidNumberOfBuilders(u32),
    /// The graph handle names no loaded graph.
    InvalidGraphHandle,
    /// The execution-context handle names no initialized context.
    InvalidExecutionContextHandle,
    /// The destination is too small for the tensor data.
    NotEnoughMemory(u32),
    /// No graph is registered under this name.
    NotFound(String),
}

/// An ML backend this host can drive.
#[derive(Clone, Copy, Debug, PartialEq, Eq, Hash, Structural)]
pub enum BackendKind {
    /// The OpenVINO backend.
    OpenVINO,
}

/// A backend name that could not be parsed.
#[derive(Clone, Debug)]
pub struct BackendKindParseError(pub String);

/// The first position at or after `i` holding `key`; `v.len()` if none.
pub open spec fn find_key<V>(v: Seq<(u32, V)>, key: u32, i: int) -> int
    decreases v.len() - i,
{
    if i < 0 || i >= v.len() {
        v.len() as int
    } else if v[i].0 == key {
        i
    } else {
        find_key(v, key, i + 1)
    }
}

/// Record handle entries in a table: values are stored under fresh `u32`
/// keys handed out in order.
#[derive(Debug)]
pub struct Table<V> {
    /// The entries, oldest first; keys are unique.
    entries: Vec<(u32, V)>,
    /// The next key to hand out.
    next_key: u32,
}

impl<V> Table<V> {
    /// Keys are handed out in order: every stored key is below the next
    /// one.
    pub open spec fn wf(self) -> bool {
        forall|i: int| 0 <= i < self@.len() ==> (#[trigger] self@[i]).0 < self.spec_next_key()
    }

    /// The entries, for specification purposes.
    pub closed spec fn view(&self) -> Seq<(u32, V)> {
        self.entries@
    }

    /// The next key to hand out, for specification purposes.
    pub closed spec fn spec_next_key(&self) -> u32 {
        self.next_key
    }

    /// An empty table, handing out keys from zero.
    pub fn new() -> (r: Table<V>)
        ensures
            r@.len() == 0,
            r.spec_next_key() == 0,
            r.wf(),
    {
        Table { entries: Vec::new(), next_key: 0 }
    }

    /// Store `value` under a fresh key and return the key.
    pub fn insert(&mut self, value: V) -> (key: u32)
        requires
            old(self).spec_next_key() < u32::MAX,
            old(self).wf(),
        ensures
            key == old(self).spec_next_key(),
            final(self)@ == old(self)@.push((key, value)),
            final(self).spec_next_key() == old(self).spec_next_key() + 1,
            final(self).wf(),
            forall|i: int| 0 <= i < old(self)@.len() ==> (#[trigger] old(self)@[i]).0 != key,
    {
        let key = self.use_next_key();
        self.entries.push((key, value));
        key
    }

    /// Borrow the value stored under `key` for writing; `None` when the
    /// key names nothing.
    pub fn get_mut(&mut self, key: u32) -> (r: Option<&mut V>)
        ensures
            r is None ==> find_key(old(self)@, key, 0) == old(self)@.len() && final(self)@ == old(
                self,
            )@,
            r matches Some(v) ==> {
                let at = find_key(old(self)@, key, 0);
                &&& at < old(self)@.len()
                &&& old(self)@[at].0 == key
                &&& *v == old(self)@[at].1
                &&& final(self)@ == old(self)@.update(at, (key, *final(v)))
            },
            final(self).spec_next_key() == old(self).spec_next_key(),
    {
        let n = self.entries.len();
        let mut i: usize = 0;
        while i < n
            invariant
                i <= n,
                n == self.entries@.len(),
                self.entries@ == old(self)@,
                self.next_key == old(self).spec_next_key(),
                find_key(self.entries@, key, 0) == find_key(self.entries@, key, i as int),
            decreases n - i,
        {
            if self.entries[i].0 == key {
                let entry = &mut self.entries[i];
                return Some(&mut entry.1);
            }
            i = i + 1;
        }
        None
    }

    /// How many entries the table holds.
    pub fn len(&self) -> (r: usize)
        ensures
            r == self@.len(),
    {
        self.entries.len()
    }

    /// Hand out the next key.
    fn use_next_key(&mut self) -> (key: u32)
        requires
            old(self).spec_next_key() < u32::MAX,
        ensures
            key == old(self).spec_next_key(),
            final(self).spec_next_key() == old(self).spec_next_key() + 1,
            final(self)@ == old(self)@,
    {
        let current = self.next_key;
        self.next_key = self.next_key + 1;
        current
    }
}

/// A backend failure, reported to the guest.
#[derive(Clone, Debug)]
pub enum BackendError {
    /// The ML library failed; the message says how.
    BackendAccess(String),
    /// Guest memory could not be accessed.
    GuestAccess(String),
    /// The backend expects a different number of builders: expected,
    /// passed.
    InvalidNumberOfBuilders(usize, usize),
    /// The destination is too small for the tensor data.
    NotEnoughMemory(usize),
}

/// A loaded model, as a backend implements it: it can spawn execution
/// contexts.
pub trait BackendGraph {
    /// Create an execution context over this graph.
    fn init_execution_context(&self) -> Result<ExecutionContext, BackendError>;
}

/// An inference in progress, as a backend implements it.
pub trait BackendExecutionContext {
    /// Bind the bytes of input tensor `index`.
    fn set_input(&mut self, index: u32, tensor: &Vec<u8>) -> Result<(), BackendError>;

    /// Run the inference.
    fn compute(&mut self) -> Result<(), BackendError>;

    /// Copy output tensor `index` into `destination`, returning how many
    /// bytes it holds.
    fn get_output(&mut self, index: u32, destination: &mut Vec<u8>) -> Result<u32, BackendError>;
}

/// A store of graphs preloaded under names.
pub trait GraphRegistry {
    /// Borrow the graph registered under `name` for writing.
    fn get_mut(&mut self, name: &str) -> Option<&mut Graph>;
}

/// A backend-defined graph (an ML model).
pub struct Graph(pub Box<dyn BackendGraph>);

impl Graph {
    /// Create an execution context over this graph.
    pub fn init_execution_context(&self) -> Result<ExecutionContext, BackendError> {
        self.0.init_execution_context()
    }
}

/// A backend-defined execution context.
pub struct ExecutionContext(pub Box<dyn BackendExecutionContext>);

impl ExecutionContext {
    /// Bind the bytes of input tensor `index`.
    pub fn set_input(&mut self, index: u32, tensor: &Vec<u8>) -> Result<(), BackendError> {
        self.0.set_input(index, tensor)
    }

    /// Run the inference.
    pub fn compute(&mut self) -> Result<(), BackendError> {
        self.0.compute()
    }

    /// Copy output tensor `index` into `destination`.
    pub fn get_output(&mut self, index: u32, destination: &mut Vec<u8>) -> Result<
        u32,
        BackendError,
    > {
        self.0.get_output(index, destination)
    }
}

/// A registry of named graphs.
pub struct Registry(pub Box<dyn GraphRegistry>);

impl Registry {
    /// Borrow the graph registered under `name` for writing.
    pub fn get_mut(&mut self, name: &str) -> Option<&mut Graph> {
        self.0.get_mut(name)
    }
}

} // verus!

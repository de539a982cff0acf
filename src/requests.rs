use vstd::prelude::*;
use vstd::string::StringSliceAdditionalSpecFns;

verus! {

/// Outcome of a request-parser operation.
pub enum RequestParserResult<T> {
    Success(T),
    EmptyKey,
    InvalidKey,
    InvalidRequest,
}

/// A node of the parser's tree: one key byte, the next alternative for the
/// same position (`sibling`), and the first alternative for the position
/// after it (`child`).
pub struct RequestParserNode<T> {
    key_char: u8,
    sibling: Option<Box<RequestParserNode<T>>>,
    child: Option<Box<RequestParserNode<T>>>,
    value: Option<T>,
}

impl<T> RequestParserNode<T> {
    /// Value stored under `key` in the chain starting at `node`.
    pub closed spec fn chain_lookup(node: Option<Box<RequestParserNode<T>>>, key: Seq<u8>) -> Option<
        T,
    >
        decreases node,
    {
        match node {
            None => None,
            Some(n) => n.lookup(key),
        }
    }

    /// Value stored under `key` in this node and its siblings: the first of
    /// them whose byte matches `key[0]` decides.
    pub closed spec fn lookup(self, key: Seq<u8>) -> Option<T>
        decreases self,
    {
        if key.len() == 0 {
            None
        } else if self.key_char == key[0] {
            if key.len() == 1 {
                self.value
            } else {
                Self::chain_lookup(self.child, key.drop_first())
            }
        } else {
            Self::chain_lookup(self.sibling, key)
        }
    }

    pub closed spec fn key_char_spec(self) -> u8 {
        self.key_char
    }

    pub fn new(key_char: u8) -> (r: RequestParserNode<T>)
        ensures
            r.key_char_spec() == key_char,
            forall|k: Seq<u8>| r.lookup(k) is None,
    {
        RequestParserNode { key_char, sibling: None, child: None, value: None }
    }

    /// A chain holding `value` under `key[index..]` and nothing else.
    fn path(key: &[u8], index: usize, value: T) -> (r: RequestParserNode<T>)
        requires
            index < key@.len(),
        ensures
            r.key_char_spec() == key@[index as int],
            forall|k: Seq<u8>|
                #[trigger] r.lookup(k) == if k == key@.subrange(index as int, key@.len() as int) {
                    Some(value)
                } else {
                    None
                },
        decreases key@.len() - index,
    {
        if index == key.len() - 1 {
            let r = RequestParserNode { key_char: key[index], sibling: None, child: None, value: Some(value) };
            assert forall|k: Seq<u8>|
                #[trigger] r.lookup(k) == if k == key@.subrange(index as int, key@.len() as int) {
                    Some(value)
                } else {
                    None
                } by {
                let suffix = key@.subrange(index as int, key@.len() as int);
                assert(suffix.len() == 1 && suffix[0] == key@[index as int]);
                if k.len() == 1 && k[0] == key@[index as int] {
                    assert(k =~= suffix);
                }
            }
            r
        } else {
            let child = Self::path(key, index + 1, value);
            let r = RequestParserNode {
                key_char: key[index],
                sibling: None,
                child: Some(Box::new(child)),
                value: None,
            };
            assert forall|k: Seq<u8>| k.len() > 1 && k[0] == key@[index as int] implies #[trigger] r.lookup(k)
                == child.lookup(k.drop_first()) by {
                assert(Self::chain_lookup(r.child, k.drop_first()) == child.lookup(k.drop_first()));
            }
            assert forall|k: Seq<u8>|
                #[trigger] r.lookup(k) == if k == key@.subrange(index as int, key@.len() as int) {
                    Some(value)
                } else {
                    None
                } by {
                let suffix = key@.subrange(index as int, key@.len() as int);
                let rest = key@.subrange(index + 1, key@.len() as int);
                if k.len() > 1 && k[0] == key@[index as int] {
                    assert(k == suffix <==> k.drop_first() == rest) by {
                        if k.drop_first() =~= rest {
                            assert(k.len() == suffix.len());
                            assert forall|i: int| 0 <= i < k.len() implies k[i] == suffix[i] by {
                                if i > 0 {
                                    assert(k[i] == k.drop_first()[i - 1]);
                                }
                            }
                            assert(k =~= suffix);
                        }
                        if k =~= suffix {
                            assert(k.drop_first() =~= rest);
                        }
                    }
                }
                if k == suffix {
                    assert(k.len() > 1);
                    assert(k[0] == key@[index as int]);
                }
            }
            r
        }
    }

    /// This node's chain with `value` stored under `key[index..]`; the nodes
    /// that are missing are created.
    fn inserted(self, key: &[u8], index: usize, value: T) -> (r: RequestParserNode<T>)
        requires
            index < key@.len(),
        ensures
            r.key_char_spec() == self.key_char_spec(),
            forall|k: Seq<u8>|
                #[trigger] r.lookup(k) == if k == key@.subrange(index as int, key@.len() as int) {
                    Some(value)
                } else {
                    self.lookup(k)
                },
        decreases self,
    {
        let ghost before = self;
        let ghost suffix = key@.subrange(index as int, key@.len() as int);
        let RequestParserNode { key_char, sibling, child, value: stored } = self;
        if key_char != key[index] {
            let next = match sibling {
                None => Self::path(key, index, value),
                Some(s) => (*s).inserted(key, index, value),
            };
            let ghost sib = next;
            let r = RequestParserNode { key_char, sibling: Some(Box::new(next)), child, value: stored };
            assert forall|k: Seq<u8>|
                #[trigger] r.lookup(k) == if k == suffix {
                    Some(value)
                } else {
                    before.lookup(k)
                } by {
                if k == suffix {
                    assert(k[0] == key@[index as int]);
                }
                if k.len() > 0 && k[0] != key_char {
                    assert(r.lookup(k) == sib.lookup(k));
                    assert(before.lookup(k) == Self::chain_lookup(before.sibling, k));
                }
            }
            r
        } else if index == key.len() - 1 {
            let r = RequestParserNode { key_char, sibling, child, value: Some(value) };
            assert(suffix.len() == 1 && suffix[0] == key@[index as int]);
            assert forall|k: Seq<u8>|
                #[trigger] r.lookup(k) == if k == suffix {
                    Some(value)
                } else {
                    before.lookup(k)
                } by {
                if k.len() == 1 && k[0] == key@[index as int] {
                    assert(k =~= suffix);
                }
            }
            r
        } else {
            let ghost rest = key@.subrange(index + 1, key@.len() as int);
            let next = match child {
                None => Self::path(key, index + 1, value),
                Some(c) => (*c).inserted(key, index + 1, value),
            };
            let ghost ch = next;
            let r = RequestParserNode { key_char, sibling, child: Some(Box::new(next)), value: stored };
            assert forall|k: Seq<u8>|
                #[trigger] r.lookup(k) == if k == suffix {
                    Some(value)
                } else {
                    before.lookup(k)
                } by {
                if k.len() > 1 && k[0] == key@[index as int] {
                    assert(r.lookup(k) == ch.lookup(k.drop_first()));
                    assert(before.lookup(k) == Self::chain_lookup(before.child, k.drop_first()));
                    assert(k == suffix <==> k.drop_first() == rest) by {
                        if k.drop_first() =~= rest {
                            assert(k.len() == suffix.len());
                            assert forall|i: int| 0 <= i < k.len() implies k[i] == suffix[i] by {
                                if i > 0 {
                                    assert(k[i] == k.drop_first()[i - 1]);
                                }
                            }
                            assert(k =~= suffix);
                        }
                        if k =~= suffix {
                            assert(k.drop_first() =~= rest);
                        }
                    }
                }
                if k == suffix {
                    assert(k.len() > 1);
                    assert(k[0] == key@[index as int]);
                }
            }
            r
        }
    }

    /// The value stored under `key[index..]` in this node's chain.
    fn get_at(&self, key: &[u8], index: usize) -> (r: Option<&T>)
        requires
            index < key@.len(),
        ensures
            r matches Some(v) ==> self.lookup(key@.subrange(index as int, key@.len() as int))
                == Some(*v),
            r is None ==> self.lookup(key@.subrange(index as int, key@.len() as int)) is None,
        decreases *self,
    {
        let ghost suffix = key@.subrange(index as int, key@.len() as int);
        if self.key_char != key[index] {
            match &self.sibling {
                None => None,
                Some(s) => s.get_at(key, index),
            }
        } else if index == key.len() - 1 {
            match &self.value {
                None => None,
                Some(v) => Some(v),
            }
        } else {
            assert(suffix.drop_first() =~= key@.subrange(index + 1, key@.len() as int));
            match &self.child {
                None => None,
                Some(c) => c.get_at(key, index + 1),
            }
        }
    }

    pub fn create_child(&mut self, key_char: u8)
        ensures
            final(self).key_char_spec() == old(self).key_char_spec(),
            final(self).get_child_spec() matches Some(c) && c.key_char_spec() == key_char,
    {
        self.child = Some(Box::new(RequestParserNode::new(key_char)));
    }

    pub fn create_sibling(&mut self, key_char: u8)
        ensures
            final(self).key_char_spec() == old(self).key_char_spec(),
            final(self).get_sibling_spec() matches Some(s) && s.key_char_spec() == key_char,
    {
        self.sibling = Some(Box::new(RequestParserNode::new(key_char)));
    }

    pub closed spec fn get_sibling_spec(self) -> Option<RequestParserNode<T>> {
        match self.sibling {
            Some(s) => Some(*s),
            None => None,
        }
    }

    pub closed spec fn get_child_spec(self) -> Option<RequestParserNode<T>> {
        match self.child {
            Some(c) => Some(*c),
            None => None,
        }
    }

    pub fn get_sibling(&self) -> (r: Option<&RequestParserNode<T>>)
        ensures
            r matches Some(s) ==> self.get_sibling_spec() == Some(*s),
            r is None ==> self.get_sibling_spec() is None,
    {
        match &self.sibling {
            Some(s) => Some(&**s),
            None => None,
        }
    }

    pub fn get_child(&self) -> (r: Option<&RequestParserNode<T>>)
        ensures
            r matches Some(c) ==> self.get_child_spec() == Some(*c),
            r is None ==> self.get_child_spec() is None,
    {
        match &self.child {
            Some(c) => Some(&**c),
            None => None,
        }
    }

    pub fn get_key_char(&self) -> (r: u8)
        ensures
            r == self.key_char_spec(),
    {
        self.key_char
    }

    pub closed spec fn value_spec(self) -> Option<T> {
        self.value
    }

    pub fn get_value(&self) -> (r: Option<&T>)
        ensures
            r matches Some(v) ==> self.value_spec() == Some(*v),
            r is None ==> self.value_spec() is None,
    {
        match &self.value {
            Some(v) => Some(v),
            None => None,
        }
    }

    pub fn set_value(&mut self, value: T)
        ensures
            final(self).value_spec() == Some(value),
            final(self).key_char_spec() == old(self).key_char_spec(),
            final(self).get_child_spec() == old(self).get_child_spec(),
            final(self).get_sibling_spec() == old(self).get_sibling_spec(),
    {
        self.value = Some(value)
    }
}

/// Whether `k` is the first line end of `request`: the first `\n` after
/// the first byte.
pub open spec fn is_line_end(request: Seq<u8>, k: int) -> bool {
    &&& 1 <= k < request.len()
    &&& request[k] == 10
    &&& forall|j: int| 1 <= j < k ==> request[j] != 10
}

/// Maps byte strings to values; a prefix tree whose first level is a list
/// of roots with distinct bytes.
pub struct RequestParser<T> {
    children: Vec<RequestParserNode<T>>,
}

impl<T> RequestParser<T> {
    pub closed spec fn wf(&self) -> bool {
        forall|i: int, j: int|
            0 <= i < j < self.children@.len() ==> self.children@[i].key_char_spec()
                != self.children@[j].key_char_spec()
    }

    /// The value stored under `key`, if any.
    pub closed spec fn lookup(&self, key: Seq<u8>) -> Option<T> {
        if key.len() > 0 && exists|i: int|
            0 <= i < self.children@.len() && self.children@[i].key_char_spec() == key[0] {
            let i = choose|i: int|
                0 <= i < self.children@.len() && self.children@[i].key_char_spec() == key[0];
            self.children@[i].lookup(key)
        } else {
            None
        }
    }

    /// The stored values as a map from keys.
    pub open spec fn view(&self) -> Map<Seq<u8>, T> {
        Map::new(|k: Seq<u8>| self.lookup(k) is Some, |k: Seq<u8>| self.lookup(k)->Some_0)
    }

    pub fn new() -> (r: RequestParser<T>)
        ensures
            r.wf(),
            r@ == Map::<Seq<u8>, T>::empty(),
    {
        let r = RequestParser { children: Vec::new() };
        assert(r@ =~= Map::<Seq<u8>, T>::empty());
        r
    }

    fn get_root_index(&self, key_char: u8) -> (r: usize)
        ensures
            r <= self.children@.len(),
            r < self.children@.len() ==> self.children@[r as int].key_char_spec() == key_char,
            r == self.children@.len() ==> forall|i: int|
                0 <= i < self.children@.len() ==> self.children@[i].key_char_spec() != key_char,
    {
        let mut index: usize = 0;
        while index < self.children.len()
            invariant
                index <= self.children@.len(),
                forall|i: int| 0 <= i < index ==> self.children@[i].key_char_spec() != key_char,
            decreases self.children@.len() - index,
        {
            if self.children[index].get_key_char() == key_char {
                return index;
            }
            index = index + 1;
        }
        index
    }

    fn insert_bytes(&mut self, key: &[u8], value: T)
        requires
            old(self).wf(),
            key@.len() > 0,
        ensures
            final(self).wf(),
            final(self)@ == old(self)@.insert(key@, value),
    {
        let ghost before = *self;
        let root_index = self.get_root_index(key[0]);
        if root_index == self.children.len() {
            self.children.push(RequestParserNode::path(key, 0, value));
        } else {
            let root = self.children.remove(root_index);
            self.children.insert(root_index, root.inserted(key, 0, value));
        }
        assert(key@.subrange(0, key@.len() as int) =~= key@);
        assert forall|k: Seq<u8>| #[trigger]
            self.lookup(k) == if k == key@ {
                Some(value)
            } else {
                before.lookup(k)
            } by {
            if k.len() > 0 {
                if root_index == before.children@.len() {
                    if k[0] == key@[0] {
                        assert(self.children@[root_index as int].key_char_spec() == k[0]);
                    } else if exists|i: int|
                        0 <= i < before.children@.len() && before.children@[i].key_char_spec()
                            == k[0] {
                        let i = choose|i: int|
                            0 <= i < before.children@.len() && before.children@[i].key_char_spec()
                                == k[0];
                        assert(self.children@[i] == before.children@[i]);
                    }
                } else {
                    if k[0] == key@[0] {
                        assert(self.children@[root_index as int].key_char_spec() == k[0]);
                    } else if exists|i: int|
                        0 <= i < before.children@.len() && before.children@[i].key_char_spec()
                            == k[0] {
                        let i = choose|i: int|
                            0 <= i < before.children@.len() && before.children@[i].key_char_spec()
                                == k[0];
                        assert(self.children@[i] == before.children@[i]);
                    }
                }
            }
        }
        assert(self@ =~= before@.insert(key@, value));
    }

    /// Stores `value` under `key`, replacing what was there. An empty key is
    /// refused with `EmptyKey`.
    pub fn insert(&mut self, key: &str, value: T) -> (r: RequestParserResult<()>)
        requires
            old(self).wf(),
        ensures
            final(self).wf(),
            key.spec_bytes().len() == 0 ==> r is EmptyKey && final(self)@ == old(self)@,
            key.spec_bytes().len() > 0 ==> r is Success && final(self)@ == old(self)@.insert(
                key.spec_bytes(),
                value,
            ),
    {
        let key = key.as_bytes();
        if key.len() == 0 {
            return RequestParserResult::EmptyKey;
        }
        self.insert_bytes(key, value);
        RequestParserResult::Success(())
    }

    fn get_bytes(&self, key: &[u8]) -> (r: Option<&T>)
        requires
            self.wf(),
            key@.len() > 0,
        ensures
            r matches Some(v) ==> self.lookup(key@) == Some(*v),
            r is None ==> self.lookup(key@) is None,
    {
        let root_index = self.get_root_index(key[0]);
        if root_index == self.children.len() {
            return None;
        }
        assert(key@.subrange(0, key@.len() as int) =~= key@);
        self.children[root_index].get_at(key, 0)
    }

    /// The value stored under `key`: `EmptyKey` for an empty key, and
    /// `InvalidKey` when nothing is stored under it.
    pub fn get(&self, key: &str) -> (r: RequestParserResult<&T>)
        requires
            self.wf(),
        ensures
            key.spec_bytes().len() == 0 <==> r is EmptyKey,
            r matches RequestParserResult::Success(v) ==> self@.contains_key(key.spec_bytes())
                && self@[key.spec_bytes()] == *v,
            r is InvalidKey <==> key.spec_bytes().len() > 0 && !self@.contains_key(
                key.spec_bytes(),
            ),
            !(r is InvalidRequest),
    {
        let key = key.as_bytes();
        if key.len() == 0 {
            return RequestParserResult::EmptyKey;
        }
        match self.get_bytes(key) {
            Some(v) => RequestParserResult::Success(v),
            None => RequestParserResult::InvalidKey,
        }
    }

    /// Takes the first line of `request` (through the first `\n` after the
    /// first byte) as a key, and returns the value stored under it with the
    /// rest of the request. `InvalidRequest` when there is no such line or
    /// nothing is stored under it.
    pub fn strip_line_and_get_value<'request>(&self, request: &'request [u8]) -> (r:
        RequestParserResult<(&T, &'request [u8])>)
        requires
            self.wf(),
        ensures
            r matches RequestParserResult::Success((v, rest)) ==> exists|k: int|
                is_line_end(request@, k) && self@.contains_key(request@.subrange(0, k + 1))
                    && self@[request@.subrange(0, k + 1)] == *v && rest@ == request@.subrange(
                    k + 1,
                    request@.len() as int,
                ),
            r is InvalidRequest <==> forall|k: int|
                is_line_end(request@, k) ==> !self@.contains_key(request@.subrange(0, k + 1)),
            r is Success || r is InvalidRequest,
    {
        let mut k: usize = 1;
        while k < request.len() && request[k] != 10
            invariant
                1 <= k,
                k <= request@.len() || request@.len() == 0,
                forall|j: int| 1 <= j < k ==> request@[j] != 10,
            decreases request@.len() - k,
        {
            k = k + 1;
        }
        if k >= request.len() {
            assert forall|j: int| is_line_end(request@, j) implies !self@.contains_key(
                request@.subrange(0, j + 1),
            ) by {}
            return RequestParserResult::InvalidRequest;
        }
        assert(is_line_end(request@, k as int));
        assert forall|j: int| is_line_end(request@, j) implies j == k by {
            if j < k {
                assert(request@[j] != 10);
            }
            if j > k {
                assert(request@[k as int] != 10);
            }
        }
        let line = &request[0..k + 1];
        match self.get_bytes(line) {
            Some(v) => RequestParserResult::Success((v, &request[k + 1..request.len()])),
            None => RequestParserResult::InvalidRequest,
        }
    }
}

} // verus!

//! The checks that open each exported operation: the handle is resolved,
//! then each argument is validated and copied, in that order. The first
//! failure is the one reported, and no native work is started for it.
use vstd::prelude::*;
use crate::boundary::{doc_check, docs_node_check, node_check, Boundary, IrohDocHandle, IrohNodeHandle};
use crate::buffer::{borrowed_bytes, required_text, required_text_spec, IrohBytes, TextArg};
use crate::error::{ArgName, BridgeError};

verus! {

/// The first failure of a check and then a text argument.
pub open spec fn check_then_text(check: Result<(), BridgeError>, arg: TextArg, name: ArgName) -> Result<String, BridgeError> {
    match check {
        Err(e) => Err(e),
        Ok(_) => required_text_spec(arg, name),
    }
}

/// The first failure of a check and then two text arguments.
pub open spec fn check_then_texts(
    check: Result<(), BridgeError>,
    a: TextArg,
    a_name: ArgName,
    b: TextArg,
    b_name: ArgName,
) -> Result<(String, String), BridgeError> {
    match check {
        Err(e) => Err(e),
        Ok(_) => match required_text_spec(a, a_name) {
            Err(e) => Err(e),
            Ok(x) => match required_text_spec(b, b_name) {
                Err(e) => Err(e),
                Ok(y) => Ok((x, y)),
            },
        },
    }
}

impl<N, D> Boundary<N, D> {
    /// Opens an operation that stores bytes on a node.
    pub fn prepare_put(&self, h: Option<IrohNodeHandle>, bytes: &IrohBytes) -> (r: Result<(&N, Vec<u8>), BridgeError>)
        ensures
            r is Ok == node_check(self.nodes(), h) is Ok,
            r is Err ==> r->Err_0 == node_check(self.nodes(), h)->Err_0,
            r is Ok ==> *r->Ok_0.0 == self.nodes()[h->Some_0.key].native,
            r is Ok ==> r->Ok_0.1@ == borrowed_bytes(*bytes),
    {
        let node = self.node(h)?;
        Ok((node, bytes.copy_in()))
    }

    /// Opens an operation on a node that takes one required text argument:
    /// a ticket, a hash or a tag name.
    pub fn prepare_text(&self, h: Option<IrohNodeHandle>, arg: TextArg, name: ArgName) -> (r: Result<(&N, String), BridgeError>)
        ensures
            r is Ok == check_then_text(node_check(self.nodes(), h), arg, name) is Ok,
            r is Err ==> r->Err_0 == check_then_text(node_check(self.nodes(), h), arg, name)->Err_0,
            r is Ok ==> *r->Ok_0.0 == self.nodes()[h->Some_0.key].native,
            r is Ok ==> r->Ok_0.1 == check_then_text(node_check(self.nodes(), h), arg, name)->Ok_0,
    {
        let node = self.node(h)?;
        let text = required_text(arg, name)?;
        Ok((node, text))
    }

    /// Opens joining a document by ticket on a node with document sync.
    pub fn prepare_doc_join(&self, h: Option<IrohNodeHandle>, ticket: TextArg) -> (r: Result<(&N, String), BridgeError>)
        ensures
            r is Ok == check_then_text(docs_node_check(self.nodes(), h), ticket, ArgName::Ticket) is Ok,
            r is Err ==> r->Err_0 == check_then_text(docs_node_check(self.nodes(), h), ticket, ArgName::Ticket)->Err_0,
            r is Ok ==> *r->Ok_0.0 == self.nodes()[h->Some_0.key].native,
            r is Ok ==> r->Ok_0.1 == check_then_text(docs_node_check(self.nodes(), h), ticket, ArgName::Ticket)->Ok_0,
    {
        let node = self.docs_node(h)?;
        let text = required_text(ticket, ArgName::Ticket)?;
        Ok((node, text))
    }

    /// Opens reading the content that a document entry's hash names, on a
    /// node with document sync.
    pub fn prepare_read_content(&self, h: Option<IrohNodeHandle>, content_hash: TextArg) -> (r: Result<(&N, String), BridgeError>)
        ensures
            r is Ok == check_then_text(docs_node_check(self.nodes(), h), content_hash, ArgName::ContentHash) is Ok,
            r is Err ==> r->Err_0 == check_then_text(docs_node_check(self.nodes(), h), content_hash, ArgName::ContentHash)->Err_0,
            r is Ok ==> *r->Ok_0.0 == self.nodes()[h->Some_0.key].native,
            r is Ok ==> r->Ok_0.1 == check_then_text(docs_node_check(self.nodes(), h), content_hash, ArgName::ContentHash)->Ok_0,
    {
        let node = self.docs_node(h)?;
        let text = required_text(content_hash, ArgName::ContentHash)?;
        Ok((node, text))
    }

    /// Opens pinning a blob under a tag.
    pub fn prepare_tag_set(&self, h: Option<IrohNodeHandle>, tag_name: TextArg, hash_str: TextArg) -> (r: Result<(&N, String, String), BridgeError>)
        ensures
            r is Ok == check_then_texts(node_check(self.nodes(), h), tag_name, ArgName::TagName, hash_str, ArgName::HashStr) is Ok,
            r is Err ==> r->Err_0 == check_then_texts(node_check(self.nodes(), h), tag_name, ArgName::TagName, hash_str, ArgName::HashStr)->Err_0,
            r is Ok ==> *r->Ok_0.0 == self.nodes()[h->Some_0.key].native,
            r is Ok ==> (r->Ok_0.1, r->Ok_0.2) == check_then_texts(node_check(self.nodes(), h), tag_name, ArgName::TagName, hash_str, ArgName::HashStr)->Ok_0,
    {
        let node = self.node(h)?;
        let tag = required_text(tag_name, ArgName::TagName)?;
        let hash = required_text(hash_str, ArgName::HashStr)?;
        Ok((node, tag, hash))
    }

    /// Opens a document operation that takes a key or a key prefix.
    pub fn prepare_doc_key(&self, h: Option<IrohDocHandle>, key: &IrohBytes) -> (r: Result<(&D, &N, Vec<u8>), BridgeError>)
        requires
            self.wf(),
        ensures
            r is Ok == doc_check(self.nodes(), self.docs(), h) is Ok,
            r is Err ==> r->Err_0 == doc_check(self.nodes(), self.docs(), h)->Err_0,
            r is Ok ==> *r->Ok_0.0 == self.docs()[h->Some_0.key].doc,
            r is Ok ==> *r->Ok_0.1 == self.nodes()[self.docs()[h->Some_0.key].node.key].native,
            r is Ok ==> self.nodes()[self.docs()[h->Some_0.key].node.key].docs_enabled,
            r is Ok ==> r->Ok_0.2@ == borrowed_bytes(*key),
    {
        let (doc, node) = self.doc(h)?;
        Ok((doc, node, key.copy_in()))
    }

    /// Opens writing a value under a key of a document.
    pub fn prepare_doc_set(&self, h: Option<IrohDocHandle>, key: &IrohBytes, value: &IrohBytes) -> (r: Result<(&D, &N, Vec<u8>, Vec<u8>), BridgeError>)
        requires
            self.wf(),
        ensures
            r is Ok == doc_check(self.nodes(), self.docs(), h) is Ok,
            r is Err ==> r->Err_0 == doc_check(self.nodes(), self.docs(), h)->Err_0,
            r is Ok ==> *r->Ok_0.0 == self.docs()[h->Some_0.key].doc,
            r is Ok ==> *r->Ok_0.1 == self.nodes()[self.docs()[h->Some_0.key].node.key].native,
            r is Ok ==> self.nodes()[self.docs()[h->Some_0.key].node.key].docs_enabled,
            r is Ok ==> r->Ok_0.2@ == borrowed_bytes(*key),
            r is Ok ==> r->Ok_0.3@ == borrowed_bytes(*value),
    {
        let (doc, node) = self.doc(h)?;
        Ok((doc, node, key.copy_in(), value.copy_in()))
    }
}

} // verus!

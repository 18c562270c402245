//! The commands that the handlers ask the embedding to publish.

use crate::components::{
    ExtractorView, MiningExtractor, MiningResource, RadarTransponder, TransponderView,
};
use crate::radar::{ContactView, RadarContact};
use vstd::prelude::*;

verus! {

/// What a command carries as its parameters.
#[derive(Debug, PartialEq, Eq)]
pub enum Payload {
    /// A radar contact to create or to replace.
    Contact(RadarContact),
    /// The resource identifier of what is to be deleted.
    ResourceId(String),
    /// An extractor to replace.
    Extractor(MiningExtractor),
    /// A resource to append to an inventory.
    Resource(MiningResource),
    /// A transponder to replace.
    Transponder(RadarTransponder),
}

/// What a `Payload` holds, as mathematical values.
pub enum PayloadView {
    Contact(ContactView),
    ResourceId(Seq<char>),
    Extractor(ExtractorView),
    Resource(Seq<char>),
    Transponder(TransponderView),
}

impl View for Payload {
    type V = PayloadView;

    open spec fn view(&self) -> PayloadView {
        match self {
            Payload::Contact(contact) => PayloadView::Contact(contact@),
            Payload::ResourceId(rid) => PayloadView::ResourceId(rid@),
            Payload::Extractor(extractor) => PayloadView::Extractor(extractor@),
            Payload::Resource(resource) => PayloadView::Resource(resource@),
            Payload::Transponder(transponder) => PayloadView::Transponder(transponder@),
        }
    }
}

/// One message to publish: the subject it goes to and its parameters.
#[derive(Debug, PartialEq, Eq)]
pub struct Command {
    pub subject: String,
    pub payload: Payload,
}

/// What a `Command` holds, as mathematical values.
pub struct CommandView {
    pub subject: Seq<char>,
    pub payload: PayloadView,
}

impl View for Command {
    type V = CommandView;

    open spec fn view(&self) -> CommandView {
        CommandView { subject: self.subject@, payload: self.payload@ }
    }
}

} // verus!

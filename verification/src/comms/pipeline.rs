//! Adapters of the messaging pipeline.

use vstd::prelude::*;

verus! {

/// Holds a sink so that a pipeline can address it as a service.
#[derive(Clone)]
pub struct SinkService<TSink>(TSink);

impl<TSink> SinkService<TSink> {
    /// The sink that the service sends into.
    pub closed spec fn sink(self) -> TSink {
        self.0
    }

    pub fn new(sink: TSink) -> (service: Self)
        ensures
            service.sink() == sink,
    {
        SinkService(sink)
    }

    pub fn get_ref(&self) -> (sink: &TSink)
        ensures
            *sink == self.sink(),
    {
        &self.0
    }

    pub fn into_inner(self) -> (sink: TSink)
        ensures
            sink == self.sink(),
    {
        self.0
    }
}

} // verus!

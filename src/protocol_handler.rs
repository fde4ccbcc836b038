//! Dispatch of host requests. The caller reads a packet, asks
//! [`Connection::handle_request`] what to do, does it, and writes the reply.
use vstd::prelude::*;

use crate::byte_serializable::ByteSerializable;
use crate::request::{ComputeRootPayload, EquationModeRaw, RequestPackage};

verus! {

/// One graph to sample over the plotting range.
#[derive(Clone, Copy, PartialEq, Eq, Debug, Structural)]
pub enum GraphSource {
    /// The single equation with this index.
    Equation(u8),
    /// The first equation of the system with this index.
    SystemFirst(u8),
    /// The second equation of the system with this index.
    SystemSecond(u8),
}

/// What answers a request.
#[derive(PartialEq, Eq, Debug)]
pub enum Action {
    /// No handler is registered for the request: send nothing.
    Ignore,
    /// Stream the points of each graph, in order, one long packet each.
    SendPoints { sources: Vec<GraphSource> },
    /// Send the current approximation bounds.
    SendInitialApproximations,
    /// Compute a root and send the result.
    ComputeRoot { payload: ComputeRootPayload },
}

/// The request handlers that are registered.
pub struct Connection {
    function_points_handler: bool,
    function_initial_approximation: bool,
    function_compute_root: bool,
}

impl Connection {
    pub closed spec fn has_points_handler(&self) -> bool {
        self.function_points_handler
    }

    pub closed spec fn has_initial_approximation(&self) -> bool {
        self.function_initial_approximation
    }

    pub closed spec fn has_compute_root(&self) -> bool {
        self.function_compute_root
    }

    /// A connection with no handler registered; the handshake that precedes
    /// it is the caller's.
    pub fn new() -> (r: Connection)
        ensures
            !r.has_points_handler(),
            !r.has_initial_approximation(),
            !r.has_compute_root(),
    {
        Connection {
            function_points_handler: false,
            function_initial_approximation: false,
            function_compute_root: false,
        }
    }

    /// Records that the caller answers function-points requests.
    pub fn set_points_handler(&mut self)
        ensures
            final(self).has_points_handler(),
            final(self).has_initial_approximation() == old(self).has_initial_approximation(),
            final(self).has_compute_root() == old(self).has_compute_root(),
    {
        self.function_points_handler = true;
    }

    /// Records that the caller answers initial-approximation requests.
    pub fn set_initial_approximation(&mut self)
        ensures
            final(self).has_initial_approximation(),
            final(self).has_points_handler() == old(self).has_points_handler(),
            final(self).has_compute_root() == old(self).has_compute_root(),
    {
        self.function_initial_approximation = true;
    }

    /// Records that the caller answers compute-root requests.
    pub fn set_compute_root(&mut self)
        ensures
            final(self).has_compute_root(),
            final(self).has_points_handler() == old(self).has_points_handler(),
            final(self).has_initial_approximation() == old(self).has_initial_approximation(),
    {
        self.function_compute_root = true;
    }

    /// The action that answers the request in `packet`: a request without a
    /// registered handler is ignored; a single equation's graph is one
    /// stream, a system's is two, its first equation's then its second's.
    pub fn handle_request(&self, packet: &[u8; 16]) -> (r: Action)
        requires
            RequestPackage::is_encoding(packet@),
        ensures
            match RequestPackage::decoding(packet@) {
                RequestPackage::FunctionPoints { payload } => if !self.has_points_handler() {
                    r == Action::Ignore
                } else if payload.mode == EquationModeRaw::SingleEquation {
                    r matches Action::SendPoints { sources } && sources@ == seq![
                        GraphSource::Equation(payload.equation_number),
                    ]
                } else {
                    r matches Action::SendPoints { sources } && sources@ == seq![
                        GraphSource::SystemFirst(payload.equation_number),
                        GraphSource::SystemSecond(payload.equation_number),
                    ]
                },
                RequestPackage::InitialApproximations => if self.has_initial_approximation() {
                    r == Action::SendInitialApproximations
                } else {
                    r == Action::Ignore
                },
                RequestPackage::ComputeRoot { payload } => if self.has_compute_root() {
                    r == Action::ComputeRoot { payload }
                } else {
                    r == Action::Ignore
                },
            },
    {
        let request = RequestPackage::from_bytes(packet);
        match request {
            RequestPackage::FunctionPoints { payload } => {
                if !self.function_points_handler {
                    return Action::Ignore;
                }
                let mut sources: Vec<GraphSource> = Vec::new();
                match payload.mode {
                    EquationModeRaw::SingleEquation => {
                        sources.push(GraphSource::Equation(payload.equation_number));
                    },
                    EquationModeRaw::SystemOfEquations => {
                        sources.push(GraphSource::SystemFirst(payload.equation_number));
                        sources.push(GraphSource::SystemSecond(payload.equation_number));
                    },
                }
                assert(sources@ =~= match payload.mode {
                    EquationModeRaw::SingleEquation => seq![
                        GraphSource::Equation(payload.equation_number),
                    ],
                    EquationModeRaw::SystemOfEquations => seq![
                        GraphSource::SystemFirst(payload.equation_number),
                        GraphSource::SystemSecond(payload.equation_number),
                    ],
                });
                Action::SendPoints { sources }
            },
            RequestPackage::InitialApproximations => {
                if self.function_initial_approximation {
                    Action::SendInitialApproximations
                } else {
                    Action::Ignore
                }
            },
            RequestPackage::ComputeRoot { payload } => {
                if self.function_compute_root {
                    Action::ComputeRoot { payload }
                } else {
                    Action::Ignore
                }
            },
        }
    }
}

} // verus!

use vstd::prelude::*;

verus! {

/// The TCP connect probe's state: the address and port the user typed, and
/// the outcome text of the last attempt.
#[derive(Clone, Debug)]
pub struct TcpTester {
    /// Host address text, as typed.
    pub input_address: String,
    /// Port text, as typed.
    pub input_port: String,
    /// Outcome of the last attempt; empty before the first one.
    pub status: String,
}

impl Default for TcpTester {
    /// A fresh probe: nothing typed, nothing attempted.
    fn default() -> (r: Self)
        ensures
            r.input_address@ == Seq::<char>::empty(),
            r.input_port@ == Seq::<char>::empty(),
            r.status@ == Seq::<char>::empty(),
    {
        TcpTester {
            input_address: String::new(),
            input_port: String::new(),
            status: String::new(),
        }
    }
}

impl TcpTester {
    /// The endpoint text handed to the connection attempt: the address and
    /// port joined by a colon, exactly as typed.
    pub fn endpoint_text(&self) -> (r: String)
        ensures
            r@ == self.input_address@ + ":"@ + self.input_port@,
    {
        let mut s = self.input_address.clone();
        s.append(":");
        s.append(self.input_port.as_str());
        proof {
            assert(s@ =~= self.input_address@ + ":"@ + self.input_port@);
        }
        s
    }
}

} // verus!

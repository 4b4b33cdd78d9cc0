use vstd::prelude::*;

verus! {

/// An on-chain address, held as the bytes of its strkey
/// (`G...` for an account, `C...` for a contract).
#[derive(Debug, PartialEq, Eq)]
pub struct Account {
    strkey: Vec<u8>,
}

impl View for Account {
    type V = Seq<u8>;

    closed spec fn view(&self) -> Seq<u8> {
        self.strkey@
    }
}

impl Account {
    /// The address whose strkey is `strkey`.
    pub fn from_strkey(strkey: Vec<u8>) -> (a: Account)
        ensures
            a@ == strkey@,
    {
        Account { strkey }
    }

    /// The bytes of the strkey.
    pub fn strkey(&self) -> (s: &[u8])
        ensures
            s@ == self@,
    {
        self.strkey.as_slice()
    }

    /// Whether two addresses are the same address.
    pub fn same_as(&self, other: &Account) -> (r: bool)
        ensures
            r == (self@ == other@),
    {
        let n = self.strkey.len();
        if n != other.strkey.len() {
            return false;
        }
        let mut i: usize = 0;
        while i < n
            invariant
                n == self@.len(),
                n == other@.len(),
                i <= n,
                forall|j: int| 0 <= j < i ==> self@[j] == other@[j],
            decreases n - i,
        {
            if self.strkey[i] != other.strkey[i] {
                return false;
            }
            i = i + 1;
        }
        assert(self@ =~= other@);
        true
    }
}

impl Clone for Account {
    fn clone(&self) -> (a: Self)
        ensures
            a@ == self@,
    {
        let strkey = self.strkey.clone();
        assert(strkey@ =~= self.strkey@);
        Account { strkey }
    }
}

} // verus!

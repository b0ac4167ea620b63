use vstd::prelude::*;

verus! {

/// The vault authority record: the nonce byte ("bump") that, together with
/// the fixed domain tag, derives the program-controlled signer that
/// authorizes outbound transfers. Established once at setup, read-only
/// thereafter.
#[derive(Clone, Copy, Debug, PartialEq, Eq, Structural)]
pub struct TradingBot {
    pub bump: u8,
}

/// The fixed domain tag: the ASCII bytes of `trading_bot`, first seed of
/// the derived signer.
pub open spec fn domain_tag() -> Seq<u8> {
    seq![0x74u8, 0x72u8, 0x61u8, 0x64u8, 0x69u8, 0x6eu8, 0x67u8, 0x5fu8, 0x62u8, 0x6fu8, 0x74u8]
}

impl TradingBot {
    /// The ordered seed list `[domain tag, [bump]]` that reconstructs the
    /// derived signer. It must be byte-identical to the list used when the
    /// authority address was derived, or the host's signature check fails
    /// closed.
    pub fn signing_seeds(&self) -> (r: Vec<Vec<u8>>)
        ensures
            r@.len() == 2,
            r@[0]@ == domain_tag(),
            r@[1]@ == seq![self.bump],
    {
        let mut tag: Vec<u8> = Vec::new();
        tag.push(0x74u8);
        tag.push(0x72u8);
        tag.push(0x61u8);
        tag.push(0x64u8);
        tag.push(0x69u8);
        tag.push(0x6eu8);
        tag.push(0x67u8);
        tag.push(0x5fu8);
        tag.push(0x62u8);
        tag.push(0x6fu8);
        tag.push(0x74u8);
        let mut bump_seed: Vec<u8> = Vec::new();
        bump_seed.push(self.bump);
        let mut seeds: Vec<Vec<u8>> = Vec::new();
        proof {
            assert(tag@ =~= domain_tag());
            assert(bump_seed@ =~= seq![self.bump]);
        }
        seeds.push(tag);
        seeds.push(bump_seed);
        seeds
    }
}

} // verus!

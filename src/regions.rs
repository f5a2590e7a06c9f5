//! Region tables of the relay providers.
//!
//! Each provider has a fixed table of regions, each with a display name, a
//! submission URL and a host to probe. The first region of a table is the
//! provider's default.
use vstd::prelude::*;

verus! {
/// The regions of Astralane.
#[derive(Debug, Clone, Copy, PartialEq, Eq)]
pub enum AstraRegionsType {
    Amsterdam,
    Frankfurt,
    LA,
    NY,
    Tokyo,
    Limburg,
    Paladine,
}

/// One region of Astralane.
#[derive(Debug, Clone, Copy)]
pub struct AstraEndpoint {
    pub relayer: AstraRegionsType,
    pub submit_endpoint: &'static str,
    pub ping_endpoint: &'static str,
    pub relayer_name: &'static str,
}

/// The display name, submission URL and probe host of each of Astralane's
/// regions.
pub open spec fn astra_entry(region: AstraRegionsType) -> (Seq<char>, Seq<char>, Seq<char>) {
    match region {
        AstraRegionsType::LA => ("Astra-San Francisco"@, "http://la.gateway.astralane.io/iris"@, "la.gateway.astralane.io"@),
        AstraRegionsType::Amsterdam => ("Astra-Amsterdam"@, "http://ams.gateway.astralane.io/iris"@, "ams.gateway.astralane.io"@),
        AstraRegionsType::Frankfurt => ("Astra-Frankfurt"@, "http://fr.gateway.astralane.io/iris"@, "fr.gateway.astralane.io"@),
        AstraRegionsType::NY => ("Astra-NY"@, "http://ny.gateway.astralane.io/iris"@, "ny.gateway.astralane.io"@),
        AstraRegionsType::Tokyo => ("Astra-Tokyo"@, "http://jp.gateway.astralane.io/iris"@, "jp.gateway.astralane.io"@),
        AstraRegionsType::Limburg => ("Astra-Limburg"@, "http://lim.gateway.astralane.io/iris"@, "lim.gateway.astralane.io"@),
        AstraRegionsType::Paladine => ("Astra-Paladine"@, "http://paladin.astralane.io/api/palidators"@, "paladin.astralane.io"@),
    }
}

/// Whether `e` is the table entry of `region` among Astralane's regions.
pub open spec fn is_astra_entry(e: AstraEndpoint, region: AstraRegionsType) -> bool {
    &&& e.relayer == region
    &&& (e.relayer_name@, e.submit_endpoint@, e.ping_endpoint@) == astra_entry(region)
}

/// Astralane's regions in table order.
pub open spec fn astra_order() -> Seq<AstraRegionsType> {
    seq![AstraRegionsType::LA, AstraRegionsType::Amsterdam, AstraRegionsType::Frankfurt, AstraRegionsType::NY, AstraRegionsType::Tokyo, AstraRegionsType::Limburg, AstraRegionsType::Paladine]
}

/// The table entry of `region` among Astralane's regions.
pub fn astra_endpoint(region: AstraRegionsType) -> (r: AstraEndpoint)
    ensures
        is_astra_entry(r, region),
{
    match region {
        AstraRegionsType::LA => AstraEndpoint {
            relayer: AstraRegionsType::LA,
            relayer_name: "Astra-San Francisco",
            submit_endpoint: "http://la.gateway.astralane.io/iris",
            ping_endpoint: "la.gateway.astralane.io",
        },
        AstraRegionsType::Amsterdam => AstraEndpoint {
            relayer: AstraRegionsType::Amsterdam,
            relayer_name: "Astra-Amsterdam",
            submit_endpoint: "http://ams.gateway.astralane.io/iris",
            ping_endpoint: "ams.gateway.astralane.io",
        },
        AstraRegionsType::Frankfurt => AstraEndpoint {
            relayer: AstraRegionsType::Frankfurt,
            relayer_name: "Astra-Frankfurt",
            submit_endpoint: "http://fr.gateway.astralane.io/iris",
            ping_endpoint: "fr.gateway.astralane.io",
        },
        AstraRegionsType::NY => AstraEndpoint {
            relayer: AstraRegionsType::NY,
            relayer_name: "Astra-NY",
            submit_endpoint: "http://ny.gateway.astralane.io/iris",
            ping_endpoint: "ny.gateway.astralane.io",
        },
        AstraRegionsType::Tokyo => AstraEndpoint {
            relayer: AstraRegionsType::Tokyo,
            relayer_name: "Astra-Tokyo",
            submit_endpoint: "http://jp.gateway.astralane.io/iris",
            ping_endpoint: "jp.gateway.astralane.io",
        },
        AstraRegionsType::Limburg => AstraEndpoint {
            relayer: AstraRegionsType::Limburg,
            relayer_name: "Astra-Limburg",
            submit_endpoint: "http://lim.gateway.astralane.io/iris",
            ping_endpoint: "lim.gateway.astralane.io",
        },
        AstraRegionsType::Paladine => AstraEndpoint {
            relayer: AstraRegionsType::Paladine,
            relayer_name: "Astra-Paladine",
            submit_endpoint: "http://paladin.astralane.io/api/palidators",
            ping_endpoint: "paladin.astralane.io",
        },
    }
}

/// Astralane's regions in table order, each with its entry.
pub fn astra_regions() -> (r: Vec<AstraEndpoint>)
    ensures
        r@.len() == astra_order().len(),
        forall|k: int| 0 <= k < r@.len() ==> is_astra_entry(#[trigger] r@[k], astra_order()[k]),
{
    let r = vec![
        astra_endpoint(AstraRegionsType::LA),
        astra_endpoint(AstraRegionsType::Amsterdam),
        astra_endpoint(AstraRegionsType::Frankfurt),
        astra_endpoint(AstraRegionsType::NY),
        astra_endpoint(AstraRegionsType::Tokyo),
        astra_endpoint(AstraRegionsType::Limburg),
        astra_endpoint(AstraRegionsType::Paladine),
    ];
    assert forall|k: int| 0 <= k < r@.len() implies is_astra_entry(#[trigger] r@[k], astra_order()[k]) by {
        if k == 0 {
            assert(r@[0].relayer == AstraRegionsType::LA);
        }
        if k == 1 {
            assert(r@[1].relayer == AstraRegionsType::Amsterdam);
        }
        if k == 2 {
            assert(r@[2].relayer == AstraRegionsType::Frankfurt);
        }
        if k == 3 {
            assert(r@[3].relayer == AstraRegionsType::NY);
        }
        if k == 4 {
            assert(r@[4].relayer == AstraRegionsType::Tokyo);
        }
        if k == 5 {
            assert(r@[5].relayer == AstraRegionsType::Limburg);
        }
        if k == 6 {
            assert(r@[6].relayer == AstraRegionsType::Paladine);
        }
    }
    r
}

/// The regions of BlockRazor.
#[derive(Debug, Clone, Copy, PartialEq, Eq)]
pub enum BRazorRegionsType {
    Frankfurt,
    NewYork,
    AMS,
    Tokyo,
}

/// One region of BlockRazor.
#[derive(Debug, Clone, Copy)]
pub struct BRazorEndpoint {
    pub relayer: BRazorRegionsType,
    pub submit_endpoint: &'static str,
    pub ping_endpoint: &'static str,
    pub relayer_name: &'static str,
}

/// The display name, submission URL and probe host of each of BlockRazor's
/// regions.
pub open spec fn blockrazor_entry(region: BRazorRegionsType) -> (Seq<char>, Seq<char>, Seq<char>) {
    match region {
        BRazorRegionsType::NewYork => ("BlockRazor-NewYork"@, "http://newyork.solana.blockrazor.xyz:443/sendTransaction"@, "newyork.solana.blockrazor.xyz"@),
        BRazorRegionsType::Frankfurt => ("BlockRazor-Frankfurt"@, "http://frankfurt.solana.blockrazor.xyz:443/sendTransaction"@, "frankfurt.solana.blockrazor.xyz"@),
        BRazorRegionsType::AMS => ("BlockRazor-AMS"@, "http://amsterdam.solana.blockrazor.xyz:443/sendTransaction"@, "amsterdam.solana.blockrazor.xyz"@),
        BRazorRegionsType::Tokyo => ("BlockRazor-Tokyo"@, "http://tokyo.solana.blockrazor.xyz:443/sendTransaction"@, "tokyo.solana.blockrazor.xyz"@),
    }
}

/// Whether `e` is the table entry of `region` among BlockRazor's regions.
pub open spec fn is_blockrazor_entry(e: BRazorEndpoint, region: BRazorRegionsType) -> bool {
    &&& e.relayer == region
    &&& (e.relayer_name@, e.submit_endpoint@, e.ping_endpoint@) == blockrazor_entry(region)
}

/// BlockRazor's regions in table order.
pub open spec fn blockrazor_order() -> Seq<BRazorRegionsType> {
    seq![BRazorRegionsType::NewYork, BRazorRegionsType::Frankfurt, BRazorRegionsType::AMS, BRazorRegionsType::Tokyo]
}

/// The table entry of `region` among BlockRazor's regions.
pub fn blockrazor_endpoint(region: BRazorRegionsType) -> (r: BRazorEndpoint)
    ensures
        is_blockrazor_entry(r, region),
{
    match region {
        BRazorRegionsType::NewYork => BRazorEndpoint {
            relayer: BRazorRegionsType::NewYork,
            relayer_name: "BlockRazor-NewYork",
            submit_endpoint: "http://newyork.solana.blockrazor.xyz:443/sendTransaction",
            ping_endpoint: "newyork.solana.blockrazor.xyz",
        },
        BRazorRegionsType::Frankfurt => BRazorEndpoint {
            relayer: BRazorRegionsType::Frankfurt,
            relayer_name: "BlockRazor-Frankfurt",
            submit_endpoint: "http://frankfurt.solana.blockrazor.xyz:443/sendTransaction",
            ping_endpoint: "frankfurt.solana.blockrazor.xyz",
        },
        BRazorRegionsType::AMS => BRazorEndpoint {
            relayer: BRazorRegionsType::AMS,
            relayer_name: "BlockRazor-AMS",
            submit_endpoint: "http://amsterdam.solana.blockrazor.xyz:443/sendTransaction",
            ping_endpoint: "amsterdam.solana.blockrazor.xyz",
        },
        BRazorRegionsType::Tokyo => BRazorEndpoint {
            relayer: BRazorRegionsType::Tokyo,
            relayer_name: "BlockRazor-Tokyo",
            submit_endpoint: "http://tokyo.solana.blockrazor.xyz:443/sendTransaction",
            ping_endpoint: "tokyo.solana.blockrazor.xyz",
        },
    }
}

/// BlockRazor's regions in table order, each with its entry.
pub fn blockrazor_regions() -> (r: Vec<BRazorEndpoint>)
    ensures
        r@.len() == blockrazor_order().len(),
        forall|k: int| 0 <= k < r@.len() ==> is_blockrazor_entry(#[trigger] r@[k], blockrazor_order()[k]),
{
    let r = vec![
        blockrazor_endpoint(BRazorRegionsType::NewYork),
        blockrazor_endpoint(BRazorRegionsType::Frankfurt),
        blockrazor_endpoint(BRazorRegionsType::AMS),
        blockrazor_endpoint(BRazorRegionsType::Tokyo),
    ];
    assert forall|k: int| 0 <= k < r@.len() implies is_blockrazor_entry(#[trigger] r@[k], blockrazor_order()[k]) by {
        if k == 0 {
            assert(r@[0].relayer == BRazorRegionsType::NewYork);
        }
        if k == 1 {
            assert(r@[1].relayer == BRazorRegionsType::Frankfurt);
        }
        if k == 2 {
            assert(r@[2].relayer == BRazorRegionsType::AMS);
        }
        if k == 3 {
            assert(r@[3].relayer == BRazorRegionsType::Tokyo);
        }
    }
    r
}

/// The regions of bloXroute.
#[derive(Debug, Clone, Copy, PartialEq, Eq)]
pub enum BxRouteRegionsType {
    Uk,
    Ny,
    Global,
    La,
    Ff,
    Ams,
    Ty,
}

/// One region of bloXroute.
#[derive(Debug, Clone, Copy)]
pub struct BxRouteEndpoint {
    pub relayer: BxRouteRegionsType,
    pub submit_endpoint: &'static str,
    pub ping_endpoint: &'static str,
    pub relayer_name: &'static str,
}

/// The display name, submission URL and probe host of each of bloXroute's
/// regions.
pub open spec fn bloxroute_entry(region: BxRouteRegionsType) -> (Seq<char>, Seq<char>, Seq<char>) {
    match region {
        BxRouteRegionsType::Uk => ("BloxRoute-Uk"@, "http://uk.solana.dex.blxrbdn.com"@, "uk.solana.dex.blxrbdn.com"@),
        BxRouteRegionsType::Ny => ("BloxRoute-Ny"@, "http://ny.solana.dex.blxrbdn.com"@, "ny.solana.dex.blxrbdn.com"@),
        BxRouteRegionsType::Global => ("BloxRoute-Global"@, "http://global.solana.dex.blxrbdn.com"@, "global.solana.dex.blxrbdn.com"@),
        BxRouteRegionsType::La => ("BloxRoute-La"@, "http://la.solana.dex.blxrbdn.com"@, "la.solana.dex.blxrbdn.com"@),
        BxRouteRegionsType::Ff => ("BloxRoute-Ff"@, "http://germany.solana.dex.blxrbdn.com"@, "germany.solana.dex.blxrbdn.com"@),
        BxRouteRegionsType::Ams => ("BloxRoute-Ams"@, "http://amsterdam.solana.dex.blxrbdn.com"@, "amsterdam.solana.dex.blxrbdn.com"@),
        BxRouteRegionsType::Ty => ("BloxRoute-Ty"@, "http://tokyo.solana.dex.blxrbdn.com"@, "tokyo.solana.dex.blxrbdn.com"@),
    }
}

/// Whether `e` is the table entry of `region` among bloXroute's regions.
pub open spec fn is_bloxroute_entry(e: BxRouteEndpoint, region: BxRouteRegionsType) -> bool {
    &&& e.relayer == region
    &&& (e.relayer_name@, e.submit_endpoint@, e.ping_endpoint@) == bloxroute_entry(region)
}

/// bloXroute's regions in table order.
pub open spec fn bloxroute_order() -> Seq<BxRouteRegionsType> {
    seq![BxRouteRegionsType::Uk, BxRouteRegionsType::Ny, BxRouteRegionsType::Global, BxRouteRegionsType::La, BxRouteRegionsType::Ff, BxRouteRegionsType::Ams, BxRouteRegionsType::Ty]
}

/// The table entry of `region` among bloXroute's regions.
pub fn bloxroute_endpoint(region: BxRouteRegionsType) -> (r: BxRouteEndpoint)
    ensures
        is_bloxroute_entry(r, region),
{
    match region {
        BxRouteRegionsType::Uk => BxRouteEndpoint {
            relayer: BxRouteRegionsType::Uk,
            relayer_name: "BloxRoute-Uk",
            submit_endpoint: "http://uk.solana.dex.blxrbdn.com",
            ping_endpoint: "uk.solana.dex.blxrbdn.com",
        },
        BxRouteRegionsType::Ny => BxRouteEndpoint {
            relayer: BxRouteRegionsType::Ny,
            relayer_name: "BloxRoute-Ny",
            submit_endpoint: "http://ny.solana.dex.blxrbdn.com",
            ping_endpoint: "ny.solana.dex.blxrbdn.com",
        },
        BxRouteRegionsType::Global => BxRouteEndpoint {
            relayer: BxRouteRegionsType::Global,
            relayer_name: "BloxRoute-Global",
            submit_endpoint: "http://global.solana.dex.blxrbdn.com",
            ping_endpoint: "global.solana.dex.blxrbdn.com",
        },
        BxRouteRegionsType::La => BxRouteEndpoint {
            relayer: BxRouteRegionsType::La,
            relayer_name: "BloxRoute-La",
            submit_endpoint: "http://la.solana.dex.blxrbdn.com",
            ping_endpoint: "la.solana.dex.blxrbdn.com",
        },
        BxRouteRegionsType::Ff => BxRouteEndpoint {
            relayer: BxRouteRegionsType::Ff,
            relayer_name: "BloxRoute-Ff",
            submit_endpoint: "http://germany.solana.dex.blxrbdn.com",
            ping_endpoint: "germany.solana.dex.blxrbdn.com",
        },
        BxRouteRegionsType::Ams => BxRouteEndpoint {
            relayer: BxRouteRegionsType::Ams,
            relayer_name: "BloxRoute-Ams",
            submit_endpoint: "http://amsterdam.solana.dex.blxrbdn.com",
            ping_endpoint: "amsterdam.solana.dex.blxrbdn.com",
        },
        BxRouteRegionsType::Ty => BxRouteEndpoint {
            relayer: BxRouteRegionsType::Ty,
            relayer_name: "BloxRoute-Ty",
            submit_endpoint: "http://tokyo.solana.dex.blxrbdn.com",
            ping_endpoint: "tokyo.solana.dex.blxrbdn.com",
        },
    }
}

/// bloXroute's regions in table order, each with its entry.
pub fn bloxroute_regions() -> (r: Vec<BxRouteEndpoint>)
    ensures
        r@.len() == bloxroute_order().len(),
        forall|k: int| 0 <= k < r@.len() ==> is_bloxroute_entry(#[trigger] r@[k], bloxroute_order()[k]),
{
    let r = vec![
        bloxroute_endpoint(BxRouteRegionsType::Uk),
        bloxroute_endpoint(BxRouteRegionsType::Ny),
        bloxroute_endpoint(BxRouteRegionsType::Global),
        bloxroute_endpoint(BxRouteRegionsType::La),
        bloxroute_endpoint(BxRouteRegionsType::Ff),
        bloxroute_endpoint(BxRouteRegionsType::Ams),
        bloxroute_endpoint(BxRouteRegionsType::Ty),
    ];
    assert forall|k: int| 0 <= k < r@.len() implies is_bloxroute_entry(#[trigger] r@[k], bloxroute_order()[k]) by {
        if k == 0 {
            assert(r@[0].relayer == BxRouteRegionsType::Uk);
        }
        if k == 1 {
            assert(r@[1].relayer == BxRouteRegionsType::Ny);
        }
        if k == 2 {
            assert(r@[2].relayer == BxRouteRegionsType::Global);
        }
        if k == 3 {
            assert(r@[3].relayer == BxRouteRegionsType::La);
        }
        if k == 4 {
            assert(r@[4].relayer == BxRouteRegionsType::Ff);
        }
        if k == 5 {
            assert(r@[5].relayer == BxRouteRegionsType::Ams);
        }
        if k == 6 {
            assert(r@[6].relayer == BxRouteRegionsType::Ty);
        }
    }
    r
}

/// The regions of Helius.
#[derive(Debug, Clone, Copy, PartialEq, Eq)]
pub enum HeliusRegionsType {
    Slc,
    Ewr,
    Lon,
    Fra,
    Ams,
    Sg,
    Tyo,
}

/// One region of Helius.
#[derive(Debug, Clone, Copy)]
pub struct HeliusEndpoint {
    pub relayer: HeliusRegionsType,
    pub submit_endpoint: &'static str,
    pub ping_endpoint: &'static str,
    pub relayer_name: &'static str,
}

/// The display name, submission URL and probe host of each of Helius's
/// regions.
pub open spec fn helius_entry(region: HeliusRegionsType) -> (Seq<char>, Seq<char>, Seq<char>) {
    match region {
        HeliusRegionsType::Slc => ("Helius-SaltLakeCity"@, "http://slc-sender.helius-rpc.com/fast"@, "slc-sender.helius-rpc.com"@),
        HeliusRegionsType::Ewr => ("Helius-Newark"@, "http://ewr-sender.helius-rpc.com/fast"@, "ewr-sender.helius-rpc.com"@),
        HeliusRegionsType::Lon => ("Helius-London"@, "http://lon-sender.helius-rpc.com/fast"@, "lon-sender.helius-rpc.com"@),
        HeliusRegionsType::Fra => ("Helius-Frankfurt"@, "http://fra-sender.helius-rpc.com/fast"@, "fra-sender.helius-rpc.com"@),
        HeliusRegionsType::Ams => ("Helius-Amsterdam"@, "http://ams-sender.helius-rpc.com/fast"@, "ams-sender.helius-rpc.com"@),
        HeliusRegionsType::Sg => ("Helius-Singapore"@, "http://sg-sender.helius-rpc.com/fast"@, "sg-sender.helius-rpc.com"@),
        HeliusRegionsType::Tyo => ("Helius-Tokyo"@, "http://tyo-sender.helius-rpc.com/fast"@, "tyo-sender.helius-rpc.com"@),
    }
}

/// Whether `e` is the table entry of `region` among Helius's regions.
pub open spec fn is_helius_entry(e: HeliusEndpoint, region: HeliusRegionsType) -> bool {
    &&& e.relayer == region
    &&& (e.relayer_name@, e.submit_endpoint@, e.ping_endpoint@) == helius_entry(region)
}

/// Helius's regions in table order.
pub open spec fn helius_order() -> Seq<HeliusRegionsType> {
    seq![HeliusRegionsType::Slc, HeliusRegionsType::Ewr, HeliusRegionsType::Lon, HeliusRegionsType::Fra, HeliusRegionsType::Ams, HeliusRegionsType::Sg, HeliusRegionsType::Tyo]
}

/// The table entry of `region` among Helius's regions.
pub fn helius_endpoint(region: HeliusRegionsType) -> (r: HeliusEndpoint)
    ensures
        is_helius_entry(r, region),
{
    match region {
        HeliusRegionsType::Slc => HeliusEndpoint {
            relayer: HeliusRegionsType::Slc,
            relayer_name: "Helius-SaltLakeCity",
            submit_endpoint: "http://slc-sender.helius-rpc.com/fast",
            ping_endpoint: "slc-sender.helius-rpc.com",
        },
        HeliusRegionsType::Ewr => HeliusEndpoint {
            relayer: HeliusRegionsType::Ewr,
            relayer_name: "Helius-Newark",
            submit_endpoint: "http://ewr-sender.helius-rpc.com/fast",
            ping_endpoint: "ewr-sender.helius-rpc.com",
        },
        HeliusRegionsType::Lon => HeliusEndpoint {
            relayer: HeliusRegionsType::Lon,
            relayer_name: "Helius-London",
            submit_endpoint: "http://lon-sender.helius-rpc.com/fast",
            ping_endpoint: "lon-sender.helius-rpc.com",
        },
        HeliusRegionsType::Fra => HeliusEndpoint {
            relayer: HeliusRegionsType::Fra,
            relayer_name: "Helius-Frankfurt",
            submit_endpoint: "http://fra-sender.helius-rpc.com/fast",
            ping_endpoint: "fra-sender.helius-rpc.com",
        },
        HeliusRegionsType::Ams => HeliusEndpoint {
            relayer: HeliusRegionsType::Ams,
            relayer_name: "Helius-Amsterdam",
            submit_endpoint: "http://ams-sender.helius-rpc.com/fast",
            ping_endpoint: "ams-sender.helius-rpc.com",
        },
        HeliusRegionsType::Sg => HeliusEndpoint {
            relayer: HeliusRegionsType::Sg,
            relayer_name: "Helius-Singapore",
            submit_endpoint: "http://sg-sender.helius-rpc.com/fast",
            ping_endpoint: "sg-sender.helius-rpc.com",
        },
        HeliusRegionsType::Tyo => HeliusEndpoint {
            relayer: HeliusRegionsType::Tyo,
            relayer_name: "Helius-Tokyo",
            submit_endpoint: "http://tyo-sender.helius-rpc.com/fast",
            ping_endpoint: "tyo-sender.helius-rpc.com",
        },
    }
}

/// Helius's regions in table order, each with its entry.
pub fn helius_regions() -> (r: Vec<HeliusEndpoint>)
    ensures
        r@.len() == helius_order().len(),
        forall|k: int| 0 <= k < r@.len() ==> is_helius_entry(#[trigger] r@[k], helius_order()[k]),
{
    let r = vec![
        helius_endpoint(HeliusRegionsType::Slc),
        helius_endpoint(HeliusRegionsType::Ewr),
        helius_endpoint(HeliusRegionsType::Lon),
        helius_endpoint(HeliusRegionsType::Fra),
        helius_endpoint(HeliusRegionsType::Ams),
        helius_endpoint(HeliusRegionsType::Sg),
        helius_endpoint(HeliusRegionsType::Tyo),
    ];
    assert forall|k: int| 0 <= k < r@.len() implies is_helius_entry(#[trigger] r@[k], helius_order()[k]) by {
        if k == 0 {
            assert(r@[0].relayer == HeliusRegionsType::Slc);
        }
        if k == 1 {
            assert(r@[1].relayer == HeliusRegionsType::Ewr);
        }
        if k == 2 {
            assert(r@[2].relayer == HeliusRegionsType::Lon);
        }
        if k == 3 {
            assert(r@[3].relayer == HeliusRegionsType::Fra);
        }
        if k == 4 {
            assert(r@[4].relayer == HeliusRegionsType::Ams);
        }
        if k == 5 {
            assert(r@[5].relayer == HeliusRegionsType::Sg);
        }
        if k == 6 {
            assert(r@[6].relayer == HeliusRegionsType::Tyo);
        }
    }
    r
}

/// The regions of Jito.
#[derive(Debug, Clone, Copy, PartialEq, Eq)]
pub enum JitoRegionsType {
    Mainnet,
    Amsterdam,
    Frankfurt,
    London,
    NY,
    SLC,
    SG,
    Tokyo,
}

/// One region of Jito.
#[derive(Debug, Clone, Copy)]
pub struct JitoEndpoint {
    pub relayer: JitoRegionsType,
    pub submit_endpoint: &'static str,
    pub ping_endpoint: &'static str,
    pub relayer_name: &'static str,
}

/// The display name, submission URL and probe host of each of Jito's
/// regions.
pub open spec fn jito_entry(region: JitoRegionsType) -> (Seq<char>, Seq<char>, Seq<char>) {
    match region {
        JitoRegionsType::Mainnet => ("Jito-Mainnet"@, "https://mainnet.block-engine.jito.wtf/api/v1/transactions"@, "mainnet.block-engine.jito.wtf"@),
        JitoRegionsType::Amsterdam => ("Jito-Amsterdam"@, "https://amsterdam.mainnet.block-engine.jito.wtf/api/v1/transactions"@, "amsterdam.mainnet.block-engine.jito.wtf"@),
        JitoRegionsType::Frankfurt => ("Jito-Frankfurt"@, "https://frankfurt.mainnet.block-engine.jito.wtf/api/v1/transactions"@, "frankfurt.mainnet.block-engine.jito.wtf"@),
        JitoRegionsType::London => ("Jito-London"@, "https://london.mainnet.block-engine.jito.wtf/api/v1/transactions"@, "london.mainnet.block-engine.jito.wtf"@),
        JitoRegionsType::NY => ("Jito-NY"@, "https://ny.mainnet.block-engine.jito.wtf/api/v1/transactions"@, "ny.mainnet.block-engine.jito.wtf"@),
        JitoRegionsType::SLC => ("Jito-SLC"@, "https://slc.mainnet.block-engine.jito.wtf/api/v1/transactions"@, "slc.mainnet.block-engine.jito.wtf"@),
        JitoRegionsType::SG => ("Jito-SG"@, "https://singapore.mainnet.block-engine.jito.wtf/api/v1/transactions"@, "singapore.mainnet.block-engine.jito.wtf"@),
        JitoRegionsType::Tokyo => ("Jito-Tokyo"@, "https://tokyo.mainnet.block-engine.jito.wtf/api/v1/transactions"@, "tokyo.mainnet.block-engine.jito.wtf"@),
    }
}

/// Whether `e` is the table entry of `region` among Jito's regions.
pub open spec fn is_jito_entry(e: JitoEndpoint, region: JitoRegionsType) -> bool {
    &&& e.relayer == region
    &&& (e.relayer_name@, e.submit_endpoint@, e.ping_endpoint@) == jito_entry(region)
}

/// Jito's regions in table order.
pub open spec fn jito_order() -> Seq<JitoRegionsType> {
    seq![JitoRegionsType::Mainnet, JitoRegionsType::Amsterdam, JitoRegionsType::Frankfurt, JitoRegionsType::London, JitoRegionsType::NY, JitoRegionsType::SLC, JitoRegionsType::SG, JitoRegionsType::Tokyo]
}

/// The table entry of `region` among Jito's regions.
pub fn jito_endpoint(region: JitoRegionsType) -> (r: JitoEndpoint)
    ensures
        is_jito_entry(r, region),
{
    match region {
        JitoRegionsType::Mainnet => JitoEndpoint {
            relayer: JitoRegionsType::Mainnet,
            relayer_name: "Jito-Mainnet",
            submit_endpoint: "https://mainnet.block-engine.jito.wtf/api/v1/transactions",
            ping_endpoint: "mainnet.block-engine.jito.wtf",
        },
        JitoRegionsType::Amsterdam => JitoEndpoint {
            relayer: JitoRegionsType::Amsterdam,
            relayer_name: "Jito-Amsterdam",
            submit_endpoint: "https://amsterdam.mainnet.block-engine.jito.wtf/api/v1/transactions",
            ping_endpoint: "amsterdam.mainnet.block-engine.jito.wtf",
        },
        JitoRegionsType::Frankfurt => JitoEndpoint {
            relayer: JitoRegionsType::Frankfurt,
            relayer_name: "Jito-Frankfurt",
            submit_endpoint: "https://frankfurt.mainnet.block-engine.jito.wtf/api/v1/transactions",
            ping_endpoint: "frankfurt.mainnet.block-engine.jito.wtf",
        },
        JitoRegionsType::London => JitoEndpoint {
            relayer: JitoRegionsType::London,
            relayer_name: "Jito-London",
            submit_endpoint: "https://london.mainnet.block-engine.jito.wtf/api/v1/transactions",
            ping_endpoint: "london.mainnet.block-engine.jito.wtf",
        },
        JitoRegionsType::NY => JitoEndpoint {
            relayer: JitoRegionsType::NY,
            relayer_name: "Jito-NY",
            submit_endpoint: "https://ny.mainnet.block-engine.jito.wtf/api/v1/transactions",
            ping_endpoint: "ny.mainnet.block-engine.jito.wtf",
        },
        JitoRegionsType::SLC => JitoEndpoint {
            relayer: JitoRegionsType::SLC,
            relayer_name: "Jito-SLC",
            submit_endpoint: "https://slc.mainnet.block-engine.jito.wtf/api/v1/transactions",
            ping_endpoint: "slc.mainnet.block-engine.jito.wtf",
        },
        JitoRegionsType::SG => JitoEndpoint {
            relayer: JitoRegionsType::SG,
            relayer_name: "Jito-SG",
            submit_endpoint: "https://singapore.mainnet.block-engine.jito.wtf/api/v1/transactions",
            ping_endpoint: "singapore.mainnet.block-engine.jito.wtf",
        },
        JitoRegionsType::Tokyo => JitoEndpoint {
            relayer: JitoRegionsType::Tokyo,
            relayer_name: "Jito-Tokyo",
            submit_endpoint: "https://tokyo.mainnet.block-engine.jito.wtf/api/v1/transactions",
            ping_endpoint: "tokyo.mainnet.block-engine.jito.wtf",
        },
    }
}

/// Jito's regions in table order, each with its entry.
pub fn jito_regions() -> (r: Vec<JitoEndpoint>)
    ensures
        r@.len() == jito_order().len(),
        forall|k: int| 0 <= k < r@.len() ==> is_jito_entry(#[trigger] r@[k], jito_order()[k]),
{
    let r = vec![
        jito_endpoint(JitoRegionsType::Mainnet),
        jito_endpoint(JitoRegionsType::Amsterdam),
        jito_endpoint(JitoRegionsType::Frankfurt),
        jito_endpoint(JitoRegionsType::London),
        jito_endpoint(JitoRegionsType::NY),
        jito_endpoint(JitoRegionsType::SLC),
        jito_endpoint(JitoRegionsType::SG),
        jito_endpoint(JitoRegionsType::Tokyo),
    ];
    assert forall|k: int| 0 <= k < r@.len() implies is_jito_entry(#[trigger] r@[k], jito_order()[k]) by {
        if k == 0 {
            assert(r@[0].relayer == JitoRegionsType::Mainnet);
        }
        if k == 1 {
            assert(r@[1].relayer == JitoRegionsType::Amsterdam);
        }
        if k == 2 {
            assert(r@[2].relayer == JitoRegionsType::Frankfurt);
        }
        if k == 3 {
            assert(r@[3].relayer == JitoRegionsType::London);
        }
        if k == 4 {
            assert(r@[4].relayer == JitoRegionsType::NY);
        }
        if k == 5 {
            assert(r@[5].relayer == JitoRegionsType::SLC);
        }
        if k == 6 {
            assert(r@[6].relayer == JitoRegionsType::SG);
        }
        if k == 7 {
            assert(r@[7].relayer == JitoRegionsType::Tokyo);
        }
    }
    r
}

/// The regions of NextBlock.
#[derive(Debug, Clone, Copy, PartialEq, Eq)]
pub enum NextBlockRegionsType {
    Fra,
    NY,
    Slc,
    Tokyo,
    London,
    Sgp,
    Ams,
    Vil,
    Dub,
}

/// One region of NextBlock.
#[derive(Debug, Clone, Copy)]
pub struct NextBlockEndpoint {
    pub relayer: NextBlockRegionsType,
    pub submit_endpoint: &'static str,
    pub ping_endpoint: &'static str,
    pub relayer_name: &'static str,
}

/// The display name, submission URL and probe host of each of NextBlock's
/// regions.
pub open spec fn nextblock_entry(region: NextBlockRegionsType) -> (Seq<char>, Seq<char>, Seq<char>) {
    match region {
        NextBlockRegionsType::Fra => ("Nextblock-Fra"@, "https://fra.nextblock.io"@, "fra.nextblock.io"@),
        NextBlockRegionsType::NY => ("Nextblock-Ny"@, "https://ny.nextblock.io"@, "ny.nextblock.io"@),
        NextBlockRegionsType::Slc => ("Nextblock-Slc"@, "https://slc.nextblock.io"@, "slc.nextblock.io"@),
        NextBlockRegionsType::Tokyo => ("Nextblock-Tokyo"@, "https://tokyo.nextblock.io"@, "tokyo.nextblock.io"@),
        NextBlockRegionsType::London => ("Nextblock-London"@, "https://london.nextblock.io"@, "london.nextblock.io"@),
        NextBlockRegionsType::Sgp => ("Nextblock-Sgp"@, "https://sgp.nextblock.io"@, "sgp.nextblock.io"@),
        NextBlockRegionsType::Ams => ("Nextblock-Ams"@, "https://ams.nextblock.io"@, "ams.nextblock.io"@),
        NextBlockRegionsType::Vil => ("Nextblock-Vil"@, "https://vilnius.nextblock.io"@, "vilnius.nextblock.io"@),
        NextBlockRegionsType::Dub => ("Nextblock-Dub"@, "https://dublin.nextblock.io"@, "dublin.nextblock.io"@),
    }
}

/// Whether `e` is the table entry of `region` among NextBlock's regions.
pub open spec fn is_nextblock_entry(e: NextBlockEndpoint, region: NextBlockRegionsType) -> bool {
    &&& e.relayer == region
    &&& (e.relayer_name@, e.submit_endpoint@, e.ping_endpoint@) == nextblock_entry(region)
}

/// NextBlock's regions in table order.
pub open spec fn nextblock_order() -> Seq<NextBlockRegionsType> {
    seq![NextBlockRegionsType::Fra, NextBlockRegionsType::NY, NextBlockRegionsType::Slc, NextBlockRegionsType::Tokyo, NextBlockRegionsType::London, NextBlockRegionsType::Sgp, NextBlockRegionsType::Ams, NextBlockRegionsType::Vil, NextBlockRegionsType::Dub]
}

/// The table entry of `region` among NextBlock's regions.
pub fn nextblock_endpoint(region: NextBlockRegionsType) -> (r: NextBlockEndpoint)
    ensures
        is_nextblock_entry(r, region),
{
    match region {
        NextBlockRegionsType::Fra => NextBlockEndpoint {
            relayer: NextBlockRegionsType::Fra,
            relayer_name: "Nextblock-Fra",
            submit_endpoint: "https://fra.nextblock.io",
            ping_endpoint: "fra.nextblock.io",
        },
        NextBlockRegionsType::NY => NextBlockEndpoint {
            relayer: NextBlockRegionsType::NY,
            relayer_name: "Nextblock-Ny",
            submit_endpoint: "https://ny.nextblock.io",
            ping_endpoint: "ny.nextblock.io",
        },
        NextBlockRegionsType::Slc => NextBlockEndpoint {
            relayer: NextBlockRegionsType::Slc,
            relayer_name: "Nextblock-Slc",
            submit_endpoint: "https://slc.nextblock.io",
            ping_endpoint: "slc.nextblock.io",
        },
        NextBlockRegionsType::Tokyo => NextBlockEndpoint {
            relayer: NextBlockRegionsType::Tokyo,
            relayer_name: "Nextblock-Tokyo",
            submit_endpoint: "https://tokyo.nextblock.io",
            ping_endpoint: "tokyo.nextblock.io",
        },
        NextBlockRegionsType::London => NextBlockEndpoint {
            relayer: NextBlockRegionsType::London,
            relayer_name: "Nextblock-London",
            submit_endpoint: "https://london.nextblock.io",
            ping_endpoint: "london.nextblock.io",
        },
        NextBlockRegionsType::Sgp => NextBlockEndpoint {
            relayer: NextBlockRegionsType::Sgp,
            relayer_name: "Nextblock-Sgp",
            submit_endpoint: "https://sgp.nextblock.io",
            ping_endpoint: "sgp.nextblock.io",
        },
        NextBlockRegionsType::Ams => NextBlockEndpoint {
            relayer: NextBlockRegionsType::Ams,
            relayer_name: "Nextblock-Ams",
            submit_endpoint: "https://ams.nextblock.io",
            ping_endpoint: "ams.nextblock.io",
        },
        NextBlockRegionsType::Vil => NextBlockEndpoint {
            relayer: NextBlockRegionsType::Vil,
            relayer_name: "Nextblock-Vil",
            submit_endpoint: "https://vilnius.nextblock.io",
            ping_endpoint: "vilnius.nextblock.io",
        },
        NextBlockRegionsType::Dub => NextBlockEndpoint {
            relayer: NextBlockRegionsType::Dub,
            relayer_name: "Nextblock-Dub",
            submit_endpoint: "https://dublin.nextblock.io",
            ping_endpoint: "dublin.nextblock.io",
        },
    }
}

/// NextBlock's regions in table order, each with its entry.
pub fn nextblock_regions() -> (r: Vec<NextBlockEndpoint>)
    ensures
        r@.len() == nextblock_order().len(),
        forall|k: int| 0 <= k < r@.len() ==> is_nextblock_entry(#[trigger] r@[k], nextblock_order()[k]),
{
    let r = vec![
        nextblock_endpoint(NextBlockRegionsType::Fra),
        nextblock_endpoint(NextBlockRegionsType::NY),
        nextblock_endpoint(NextBlockRegionsType::Slc),
        nextblock_endpoint(NextBlockRegionsType::Tokyo),
        nextblock_endpoint(NextBlockRegionsType::London),
        nextblock_endpoint(NextBlockRegionsType::Sgp),
        nextblock_endpoint(NextBlockRegionsType::Ams),
        nextblock_endpoint(NextBlockRegionsType::Vil),
        nextblock_endpoint(NextBlockRegionsType::Dub),
    ];
    assert forall|k: int| 0 <= k < r@.len() implies is_nextblock_entry(#[trigger] r@[k], nextblock_order()[k]) by {
        if k == 0 {
            assert(r@[0].relayer == NextBlockRegionsType::Fra);
        }
        if k == 1 {
            assert(r@[1].relayer == NextBlockRegionsType::NY);
        }
        if k == 2 {
            assert(r@[2].relayer == NextBlockRegionsType::Slc);
        }
        if k == 3 {
            assert(r@[3].relayer == NextBlockRegionsType::Tokyo);
        }
        if k == 4 {
            assert(r@[4].relayer == NextBlockRegionsType::London);
        }
        if k == 5 {
            assert(r@[5].relayer == NextBlockRegionsType::Sgp);
        }
        if k == 6 {
            assert(r@[6].relayer == NextBlockRegionsType::Ams);
        }
        if k == 7 {
            assert(r@[7].relayer == NextBlockRegionsType::Vil);
        }
        if k == 8 {
            assert(r@[8].relayer == NextBlockRegionsType::Dub);
        }
    }
    r
}

/// The regions of Nozomi.
#[derive(Debug, Clone, Copy, PartialEq, Eq)]
pub enum NozomiRegionsType {
    PittDirect,
    TyoDirect,
    SgDirect,
    EwrDirect,
    AmsDirect,
    FraDirect,
    AmsSecure,
    TyoSecure,
    SgSecure,
    EwrSecure,
    PittSecure,
    FraSecure,
}

/// One region of Nozomi.
#[derive(Debug, Clone, Copy)]
pub struct NozomiEndpoint {
    pub relayer: NozomiRegionsType,
    pub submit_endpoint: &'static str,
    pub ping_endpoint: &'static str,
    pub relayer_name: &'static str,
}

/// The display name, submission URL and probe host of each of Nozomi's
/// regions.
pub open spec fn nozomi_entry(region: NozomiRegionsType) -> (Seq<char>, Seq<char>, Seq<char>) {
    match region {
        NozomiRegionsType::PittDirect => ("Nozomi-PittDirect"@, "http://pit1.nozomi.temporal.xyz/?c="@, "pit1.nozomi.temporal.xyz"@),
        NozomiRegionsType::TyoDirect => ("Nozomi-TyoDirect"@, "http://tyo1.nozomi.temporal.xyz/?c="@, "tyo1.nozomi.temporal.xyz"@),
        NozomiRegionsType::SgDirect => ("Nozomi-SgDirect"@, "http://sgp1.nozomi.temporal.xyz/?c="@, "sgp1.nozomi.temporal.xyz"@),
        NozomiRegionsType::EwrDirect => ("Nozomi-EwrDirect"@, "http://ewr1.nozomi.temporal.xyz/?c="@, "ewr1.nozomi.temporal.xyz"@),
        NozomiRegionsType::AmsDirect => ("Nozomi-AmsDirect"@, "http://ams1.nozomi.temporal.xyz/?c="@, "ams1.nozomi.temporal.xyz"@),
        NozomiRegionsType::FraDirect => ("Nozomi-FraDirect"@, "http://fra2.nozomi.temporal.xyz/?c="@, "fra2.nozomi.temporal.xyz"@),
        NozomiRegionsType::AmsSecure => ("Nozomi-AmsSecure"@, "https://ams1.secure.nozomi.temporal.xyz/?c="@, "ams1.secure.nozomi.temporal.xyz"@),
        NozomiRegionsType::TyoSecure => ("Nozomi-TyoSecure"@, "http://tyo1.secure.nozomi.temporal.xyz/?c="@, "tyo1.secure.nozomi.temporal.xyz"@),
        NozomiRegionsType::SgSecure => ("Nozomi-SgSecure"@, "http://sgp1.secure.nozomi.temporal.xyz/?c="@, "sgp1.secure.nozomi.temporal.xyz"@),
        NozomiRegionsType::EwrSecure => ("Nozomi-EwrSecure"@, "https://ewr1.secure.nozomi.temporal.xyz/?c="@, "ewr1.secure.nozomi.temporal.xyz"@),
        NozomiRegionsType::PittSecure => ("Nozomi-PittSecure"@, "https://pit1.secure.nozomi.temporal.xyz/?c="@, "pit1.secure.nozomi.temporal.xyz"@),
        NozomiRegionsType::FraSecure => ("Nozomi-FraSecure"@, "http://fra2.secure.nozomi.temporal.xyz/?c="@, "fra2.secure.nozomi.temporal.xyz"@),
    }
}

/// Whether `e` is the table entry of `region` among Nozomi's regions.
pub open spec fn is_nozomi_entry(e: NozomiEndpoint, region: NozomiRegionsType) -> bool {
    &&& e.relayer == region
    &&& (e.relayer_name@, e.submit_endpoint@, e.ping_endpoint@) == nozomi_entry(region)
}

/// Nozomi's regions in table order.
pub open spec fn nozomi_order() -> Seq<NozomiRegionsType> {
    seq![NozomiRegionsType::PittDirect, NozomiRegionsType::TyoDirect, NozomiRegionsType::SgDirect, NozomiRegionsType::EwrDirect, NozomiRegionsType::AmsDirect, NozomiRegionsType::FraDirect, NozomiRegionsType::AmsSecure, NozomiRegionsType::TyoSecure, NozomiRegionsType::SgSecure, NozomiRegionsType::EwrSecure, NozomiRegionsType::PittSecure, NozomiRegionsType::FraSecure]
}

/// The table entry of `region` among Nozomi's regions.
pub fn nozomi_endpoint(region: NozomiRegionsType) -> (r: NozomiEndpoint)
    ensures
        is_nozomi_entry(r, region),
{
    match region {
        NozomiRegionsType::PittDirect => NozomiEndpoint {
            relayer: NozomiRegionsType::PittDirect,
            relayer_name: "Nozomi-PittDirect",
            submit_endpoint: "http://pit1.nozomi.temporal.xyz/?c=",
            ping_endpoint: "pit1.nozomi.temporal.xyz",
        },
        NozomiRegionsType::TyoDirect => NozomiEndpoint {
            relayer: NozomiRegionsType::TyoDirect,
            relayer_name: "Nozomi-TyoDirect",
            submit_endpoint: "http://tyo1.nozomi.temporal.xyz/?c=",
            ping_endpoint: "tyo1.nozomi.temporal.xyz",
        },
        NozomiRegionsType::SgDirect => NozomiEndpoint {
            relayer: NozomiRegionsType::SgDirect,
            relayer_name: "Nozomi-SgDirect",
            submit_endpoint: "http://sgp1.nozomi.temporal.xyz/?c=",
            ping_endpoint: "sgp1.nozomi.temporal.xyz",
        },
        NozomiRegionsType::EwrDirect => NozomiEndpoint {
            relayer: NozomiRegionsType::EwrDirect,
            relayer_name: "Nozomi-EwrDirect",
            submit_endpoint: "http://ewr1.nozomi.temporal.xyz/?c=",
            ping_endpoint: "ewr1.nozomi.temporal.xyz",
        },
        NozomiRegionsType::AmsDirect => NozomiEndpoint {
            relayer: NozomiRegionsType::AmsDirect,
            relayer_name: "Nozomi-AmsDirect",
            submit_endpoint: "http://ams1.nozomi.temporal.xyz/?c=",
            ping_endpoint: "ams1.nozomi.temporal.xyz",
        },
        NozomiRegionsType::FraDirect => NozomiEndpoint {
            relayer: NozomiRegionsType::FraDirect,
            relayer_name: "Nozomi-FraDirect",
            submit_endpoint: "http://fra2.nozomi.temporal.xyz/?c=",
            ping_endpoint: "fra2.nozomi.temporal.xyz",
        },
        NozomiRegionsType::AmsSecure => NozomiEndpoint {
            relayer: NozomiRegionsType::AmsSecure,
            relayer_name: "Nozomi-AmsSecure",
            submit_endpoint: "https://ams1.secure.nozomi.temporal.xyz/?c=",
            ping_endpoint: "ams1.secure.nozomi.temporal.xyz",
        },
        NozomiRegionsType::TyoSecure => NozomiEndpoint {
            relayer: NozomiRegionsType::TyoSecure,
            relayer_name: "Nozomi-TyoSecure",
            submit_endpoint: "http://tyo1.secure.nozomi.temporal.xyz/?c=",
            ping_endpoint: "tyo1.secure.nozomi.temporal.xyz",
        },
        NozomiRegionsType::SgSecure => NozomiEndpoint {
            relayer: NozomiRegionsType::SgSecure,
            relayer_name: "Nozomi-SgSecure",
            submit_endpoint: "http://sgp1.secure.nozomi.temporal.xyz/?c=",
            ping_endpoint: "sgp1.secure.nozomi.temporal.xyz",
        },
        NozomiRegionsType::EwrSecure => NozomiEndpoint {
            relayer: NozomiRegionsType::EwrSecure,
            relayer_name: "Nozomi-EwrSecure",
            submit_endpoint: "https://ewr1.secure.nozomi.temporal.xyz/?c=",
            ping_endpoint: "ewr1.secure.nozomi.temporal.xyz",
        },
        NozomiRegionsType::PittSecure => NozomiEndpoint {
            relayer: NozomiRegionsType::PittSecure,
            relayer_name: "Nozomi-PittSecure",
            submit_endpoint: "https://pit1.secure.nozomi.temporal.xyz/?c=",
            ping_endpoint: "pit1.secure.nozomi.temporal.xyz",
        },
        NozomiRegionsType::FraSecure => NozomiEndpoint {
            relayer: NozomiRegionsType::FraSecure,
            relayer_name: "Nozomi-FraSecure",
            submit_endpoint: "http://fra2.secure.nozomi.temporal.xyz/?c=",
            ping_endpoint: "fra2.secure.nozomi.temporal.xyz",
        },
    }
}

/// Nozomi's regions in table order, each with its entry.
pub fn nozomi_regions() -> (r: Vec<NozomiEndpoint>)
    ensures
        r@.len() == nozomi_order().len(),
        forall|k: int| 0 <= k < r@.len() ==> is_nozomi_entry(#[trigger] r@[k], nozomi_order()[k]),
{
    let r = vec![
        nozomi_endpoint(NozomiRegionsType::PittDirect),
        nozomi_endpoint(NozomiRegionsType::TyoDirect),
        nozomi_endpoint(NozomiRegionsType::SgDirect),
        nozomi_endpoint(NozomiRegionsType::EwrDirect),
        nozomi_endpoint(NozomiRegionsType::AmsDirect),
        nozomi_endpoint(NozomiRegionsType::FraDirect),
        nozomi_endpoint(NozomiRegionsType::AmsSecure),
        nozomi_endpoint(NozomiRegionsType::TyoSecure),
        nozomi_endpoint(NozomiRegionsType::SgSecure),
        nozomi_endpoint(NozomiRegionsType::EwrSecure),
        nozomi_endpoint(NozomiRegionsType::PittSecure),
        nozomi_endpoint(NozomiRegionsType::FraSecure),
    ];
    assert forall|k: int| 0 <= k < r@.len() implies is_nozomi_entry(#[trigger] r@[k], nozomi_order()[k]) by {
        if k == 0 {
            assert(r@[0].relayer == NozomiRegionsType::PittDirect);
        }
        if k == 1 {
            assert(r@[1].relayer == NozomiRegionsType::TyoDirect);
        }
        if k == 2 {
            assert(r@[2].relayer == NozomiRegionsType::SgDirect);
        }
        if k == 3 {
            assert(r@[3].relayer == NozomiRegionsType::EwrDirect);
        }
        if k == 4 {
            assert(r@[4].relayer == NozomiRegionsType::AmsDirect);
        }
        if k == 5 {
            assert(r@[5].relayer == NozomiRegionsType::FraDirect);
        }
        if k == 6 {
            assert(r@[6].relayer == NozomiRegionsType::AmsSecure);
        }
        if k == 7 {
            assert(r@[7].relayer == NozomiRegionsType::TyoSecure);
        }
        if k == 8 {
            assert(r@[8].relayer == NozomiRegionsType::SgSecure);
        }
        if k == 9 {
            assert(r@[9].relayer == NozomiRegionsType::EwrSecure);
        }
        if k == 10 {
            assert(r@[10].relayer == NozomiRegionsType::PittSecure);
        }
        if k == 11 {
            assert(r@[11].relayer == NozomiRegionsType::FraSecure);
        }
    }
    r
}

/// The regions of ZeroSlot.
#[derive(Debug, Clone, Copy, PartialEq, Eq)]
pub enum ZSlotRegionsType {
    Frankfurt,
    NewYork,
    AMS,
    LA,
    Tokyo,
}

/// One region of ZeroSlot.
#[derive(Debug, Clone, Copy)]
pub struct ZSlotEndpoint {
    pub relayer: ZSlotRegionsType,
    pub submit_endpoint: &'static str,
    pub ping_endpoint: &'static str,
    pub relayer_name: &'static str,
}

/// The display name, submission URL and probe host of each of ZeroSlot's
/// regions.
pub open spec fn zero_slot_entry(region: ZSlotRegionsType) -> (Seq<char>, Seq<char>, Seq<char>) {
    match region {
        ZSlotRegionsType::NewYork => ("ZeroSlot-NewYork"@, "https://ny.0slot.trade?api-key="@, "ny.0slot.trade"@),
        ZSlotRegionsType::Frankfurt => ("ZeroSlot-Frankfurt"@, "https://de.0slot.trade?api-key="@, "de.0slot.trade"@),
        ZSlotRegionsType::AMS => ("ZeroSlot-AMS"@, "https://ams.0slot.trade?api-key="@, "ams.0slot.trade"@),
        ZSlotRegionsType::LA => ("ZeroSlot-LA"@, "https://la.0slot.trade?api-key="@, "la.0slot.trade"@),
        ZSlotRegionsType::Tokyo => ("ZeroSlot-Tokyo"@, "https://jp.0slot.trade?api-key="@, "jp.0slot.trade"@),
    }
}

/// Whether `e` is the table entry of `region` among ZeroSlot's regions.
pub open spec fn is_zero_slot_entry(e: ZSlotEndpoint, region: ZSlotRegionsType) -> bool {
    &&& e.relayer == region
    &&& (e.relayer_name@, e.submit_endpoint@, e.ping_endpoint@) == zero_slot_entry(region)
}

/// ZeroSlot's regions in table order.
pub open spec fn zero_slot_order() -> Seq<ZSlotRegionsType> {
    seq![ZSlotRegionsType::NewYork, ZSlotRegionsType::Frankfurt, ZSlotRegionsType::AMS, ZSlotRegionsType::LA, ZSlotRegionsType::Tokyo]
}

/// The table entry of `region` among ZeroSlot's regions.
pub fn zero_slot_endpoint(region: ZSlotRegionsType) -> (r: ZSlotEndpoint)
    ensures
        is_zero_slot_entry(r, region),
{
    match region {
        ZSlotRegionsType::NewYork => ZSlotEndpoint {
            relayer: ZSlotRegionsType::NewYork,
            relayer_name: "ZeroSlot-NewYork",
            submit_endpoint: "https://ny.0slot.trade?api-key=",
            ping_endpoint: "ny.0slot.trade",
        },
        ZSlotRegionsType::Frankfurt => ZSlotEndpoint {
            relayer: ZSlotRegionsType::Frankfurt,
            relayer_name: "ZeroSlot-Frankfurt",
            submit_endpoint: "https://de.0slot.trade?api-key=",
            ping_endpoint: "de.0slot.trade",
        },
        ZSlotRegionsType::AMS => ZSlotEndpoint {
            relayer: ZSlotRegionsType::AMS,
            relayer_name: "ZeroSlot-AMS",
            submit_endpoint: "https://ams.0slot.trade?api-key=",
            ping_endpoint: "ams.0slot.trade",
        },
        ZSlotRegionsType::LA => ZSlotEndpoint {
            relayer: ZSlotRegionsType::LA,
            relayer_name: "ZeroSlot-LA",
            submit_endpoint: "https://la.0slot.trade?api-key=",
            ping_endpoint: "la.0slot.trade",
        },
        ZSlotRegionsType::Tokyo => ZSlotEndpoint {
            relayer: ZSlotRegionsType::Tokyo,
            relayer_name: "ZeroSlot-Tokyo",
            submit_endpoint: "https://jp.0slot.trade?api-key=",
            ping_endpoint: "jp.0slot.trade",
        },
    }
}

/// ZeroSlot's regions in table order, each with its entry.
pub fn zero_slot_regions() -> (r: Vec<ZSlotEndpoint>)
    ensures
        r@.len() == zero_slot_order().len(),
        forall|k: int| 0 <= k < r@.len() ==> is_zero_slot_entry(#[trigger] r@[k], zero_slot_order()[k]),
{
    let r = vec![
        zero_slot_endpoint(ZSlotRegionsType::NewYork),
        zero_slot_endpoint(ZSlotRegionsType::Frankfurt),
        zero_slot_endpoint(ZSlotRegionsType::AMS),
        zero_slot_endpoint(ZSlotRegionsType::LA),
        zero_slot_endpoint(ZSlotRegionsType::Tokyo),
    ];
    assert forall|k: int| 0 <= k < r@.len() implies is_zero_slot_entry(#[trigger] r@[k], zero_slot_order()[k]) by {
        if k == 0 {
            assert(r@[0].relayer == ZSlotRegionsType::NewYork);
        }
        if k == 1 {
            assert(r@[1].relayer == ZSlotRegionsType::Frankfurt);
        }
        if k == 2 {
            assert(r@[2].relayer == ZSlotRegionsType::AMS);
        }
        if k == 3 {
            assert(r@[3].relayer == ZSlotRegionsType::LA);
        }
        if k == 4 {
            assert(r@[4].relayer == ZSlotRegionsType::Tokyo);
        }
    }
    r
}

} // verus!

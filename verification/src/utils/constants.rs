//! Languages, signing salts and the per-game tables of the service.

use vstd::prelude::*;
use vstd::std_specs::convert::{FromSpecImpl, TryFromSpecImpl};
use crate::error::HoyoError;
use crate::utils::common::{Game, Region};

verus! {

/// The languages the service answers in.
#[derive(Debug, Clone, Copy, PartialEq, Eq, Structural)]
pub enum Lang {
    ZhCn,
    ZhTw,
    DeDe,
    EnUs,
    EsEs,
    FrFr,
    IdId,
    ItIt,
    JaJp,
    KoKr,
    PtPt,
    RuRu,
    ThTh,
    ViVn,
    TrTr,
}

impl Lang {
    /// The language tag, such as `en-us`.
    pub open spec fn tag(self) -> Seq<char> {
        match self {
            Lang::ZhCn => "zh-cn"@,
            Lang::ZhTw => "zh-tw"@,
            Lang::DeDe => "de-de"@,
            Lang::EnUs => "en-us"@,
            Lang::EsEs => "es-es"@,
            Lang::FrFr => "fr-fr"@,
            Lang::IdId => "id-id"@,
            Lang::ItIt => "it-it"@,
            Lang::JaJp => "ja-jp"@,
            Lang::KoKr => "ko-kr"@,
            Lang::PtPt => "pt-pt"@,
            Lang::RuRu => "ru-ru"@,
            Lang::ThTh => "th-th"@,
            Lang::ViVn => "vi-vn"@,
            Lang::TrTr => "tr-tr"@,
        }
    }

    /// The language with the given tag, if there is one.
    pub open spec fn of_tag(tag: Seq<char>) -> Option<Lang> {
        if tag == "zh-cn"@ {
            Some(Lang::ZhCn)
        } else if tag == "zh-tw"@ {
            Some(Lang::ZhTw)
        } else if tag == "de-de"@ {
            Some(Lang::DeDe)
        } else if tag == "en-us"@ {
            Some(Lang::EnUs)
        } else if tag == "es-es"@ {
            Some(Lang::EsEs)
        } else if tag == "fr-fr"@ {
            Some(Lang::FrFr)
        } else if tag == "id-id"@ {
            Some(Lang::IdId)
        } else if tag == "it-it"@ {
            Some(Lang::ItIt)
        } else if tag == "ja-jp"@ {
            Some(Lang::JaJp)
        } else if tag == "ko-kr"@ {
            Some(Lang::KoKr)
        } else if tag == "pt-pt"@ {
            Some(Lang::PtPt)
        } else if tag == "ru-ru"@ {
            Some(Lang::RuRu)
        } else if tag == "th-th"@ {
            Some(Lang::ThTh)
        } else if tag == "vi-vn"@ {
            Some(Lang::ViVn)
        } else if tag == "tr-tr"@ {
            Some(Lang::TrTr)
        } else {
            None
        }
    }

    /// Returns the language tag.
    pub fn val(&self) -> (r: &'static str)
        ensures
            r@ == self.tag(),
    {
        match self {
            Self::ZhCn => "zh-cn",
            Self::ZhTw => "zh-tw",
            Self::DeDe => "de-de",
            Self::EnUs => "en-us",
            Self::EsEs => "es-es",
            Self::FrFr => "fr-fr",
            Self::IdId => "id-id",
            Self::ItIt => "it-it",
            Self::JaJp => "ja-jp",
            Self::KoKr => "ko-kr",
            Self::PtPt => "pt-pt",
            Self::RuRu => "ru-ru",
            Self::ThTh => "th-th",
            Self::ViVn => "vi-vn",
            Self::TrTr => "tr-tr",
        }
    }

    /// Returns the two-letter language code: the tag up to its hyphen.
    pub fn val_2l(&self) -> (r: &'static str)
        ensures
            r@ == self.tag().take(2),
    {
        let r = match self {
            Self::ZhCn => "zh",
            Self::ZhTw => "zh",
            Self::DeDe => "de",
            Self::EnUs => "en",
            Self::EsEs => "es",
            Self::FrFr => "fr",
            Self::IdId => "id",
            Self::ItIt => "it",
            Self::JaJp => "ja",
            Self::KoKr => "ko",
            Self::PtPt => "pt",
            Self::RuRu => "ru",
            Self::ThTh => "th",
            Self::ViVn => "vi",
            Self::TrTr => "tr",
        };
        proof {
            reveal_tags();
            reveal_strlit("zh");
            reveal_strlit("de");
            reveal_strlit("en");
            reveal_strlit("es");
            reveal_strlit("fr");
            reveal_strlit("id");
            reveal_strlit("it");
            reveal_strlit("ja");
            reveal_strlit("ko");
            reveal_strlit("pt");
            reveal_strlit("ru");
            reveal_strlit("th");
            reveal_strlit("vi");
            reveal_strlit("tr");
            assert(r@ =~= self.tag().take(2));
        }
        r
    }

    /// Reading a language's own tag gives that language back, and a text
    /// that reads as a language is that language's tag.
    pub proof fn lemma_tag_round_trip(lang: Lang, text: Seq<char>)
        ensures
            Lang::of_tag(lang.tag()) == Some(lang),
            Lang::of_tag(text) == Some(lang) ==> text == lang.tag(),
    {
        reveal_tags();
    }
}

/// Makes the characters of every language tag known.
proof fn reveal_tags()
    ensures
        "zh-cn"@ == seq!['z', 'h', '-', 'c', 'n'],
        "zh-tw"@ == seq!['z', 'h', '-', 't', 'w'],
        "de-de"@ == seq!['d', 'e', '-', 'd', 'e'],
        "en-us"@ == seq!['e', 'n', '-', 'u', 's'],
        "es-es"@ == seq!['e', 's', '-', 'e', 's'],
        "fr-fr"@ == seq!['f', 'r', '-', 'f', 'r'],
        "id-id"@ == seq!['i', 'd', '-', 'i', 'd'],
        "it-it"@ == seq!['i', 't', '-', 'i', 't'],
        "ja-jp"@ == seq!['j', 'a', '-', 'j', 'p'],
        "ko-kr"@ == seq!['k', 'o', '-', 'k', 'r'],
        "pt-pt"@ == seq!['p', 't', '-', 'p', 't'],
        "ru-ru"@ == seq!['r', 'u', '-', 'r', 'u'],
        "th-th"@ == seq!['t', 'h', '-', 't', 'h'],
        "vi-vn"@ == seq!['v', 'i', '-', 'v', 'n'],
        "tr-tr"@ == seq!['t', 'r', '-', 't', 'r'],
{
    reveal_strlit("zh-cn");
    reveal_strlit("zh-tw");
    reveal_strlit("de-de");
    reveal_strlit("en-us");
    reveal_strlit("es-es");
    reveal_strlit("fr-fr");
    reveal_strlit("id-id");
    reveal_strlit("it-it");
    reveal_strlit("ja-jp");
    reveal_strlit("ko-kr");
    reveal_strlit("pt-pt");
    reveal_strlit("ru-ru");
    reveal_strlit("th-th");
    reveal_strlit("vi-vn");
    reveal_strlit("tr-tr");
    assert("zh-cn"@ =~= seq!['z', 'h', '-', 'c', 'n']);
    assert("zh-tw"@ =~= seq!['z', 'h', '-', 't', 'w']);
    assert("de-de"@ =~= seq!['d', 'e', '-', 'd', 'e']);
    assert("en-us"@ =~= seq!['e', 'n', '-', 'u', 's']);
    assert("es-es"@ =~= seq!['e', 's', '-', 'e', 's']);
    assert("fr-fr"@ =~= seq!['f', 'r', '-', 'f', 'r']);
    assert("id-id"@ =~= seq!['i', 'd', '-', 'i', 'd']);
    assert("it-it"@ =~= seq!['i', 't', '-', 'i', 't']);
    assert("ja-jp"@ =~= seq!['j', 'a', '-', 'j', 'p']);
    assert("ko-kr"@ =~= seq!['k', 'o', '-', 'k', 'r']);
    assert("pt-pt"@ =~= seq!['p', 't', '-', 'p', 't']);
    assert("ru-ru"@ =~= seq!['r', 'u', '-', 'r', 'u']);
    assert("th-th"@ =~= seq!['t', 'h', '-', 't', 'h']);
    assert("vi-vn"@ =~= seq!['v', 'i', '-', 'v', 'n']);
    assert("tr-tr"@ =~= seq!['t', 'r', '-', 't', 'r']);
}

impl<'a> TryFrom<&'a str> for Lang {
    type Error = HoyoError;

    /// Reads a language tag; any other text is a `LanguageParse` error.
    fn try_from(value: &'a str) -> (r: Result<Lang, HoyoError>) {
        if value.eq("zh-cn") {
            Ok(Self::ZhCn)
        } else if value.eq("zh-tw") {
            Ok(Self::ZhTw)
        } else if value.eq("de-de") {
            Ok(Self::DeDe)
        } else if value.eq("en-us") {
            Ok(Self::EnUs)
        } else if value.eq("es-es") {
            Ok(Self::EsEs)
        } else if value.eq("fr-fr") {
            Ok(Self::FrFr)
        } else if value.eq("id-id") {
            Ok(Self::IdId)
        } else if value.eq("it-it") {
            Ok(Self::ItIt)
        } else if value.eq("ja-jp") {
            Ok(Self::JaJp)
        } else if value.eq("ko-kr") {
            Ok(Self::KoKr)
        } else if value.eq("pt-pt") {
            Ok(Self::PtPt)
        } else if value.eq("ru-ru") {
            Ok(Self::RuRu)
        } else if value.eq("th-th") {
            Ok(Self::ThTh)
        } else if value.eq("vi-vn") {
            Ok(Self::ViVn)
        } else if value.eq("tr-tr") {
            Ok(Self::TrTr)
        } else {
            Err(HoyoError::LanguageParse)
        }
    }
}

impl<'a> TryFromSpecImpl<&'a str> for Lang {
    open spec fn obeys_try_from_spec() -> bool {
        true
    }

    open spec fn try_from_spec(value: &'a str) -> Result<Lang, HoyoError> {
        match Lang::of_tag(value@) {
            Some(lang) => Ok(lang),
            None => Err(HoyoError::LanguageParse),
        }
    }
}

/// The salts that dynamic secrets are signed with.
#[derive(Debug, Clone, Copy, PartialEq, Eq, Structural)]
pub enum DsSalt {
    Overseas,
    Chinese,
    AppLogin,
    CnSignin,
    CnPassport,
}

impl DsSalt {
    /// The salt's secret text.
    pub open spec fn secret(self) -> Seq<char> {
        match self {
            DsSalt::Overseas => "6s25p5ox5y14umn1p61aqyyvbvvl3lrt"@,
            DsSalt::Chinese => "xV8v4Qu54lUKrEYFZkJhB8cuOh9Asafs"@,
            DsSalt::AppLogin => "IZPgfb0dRPtBeLuFkdDznSZ6f4wWt6y2"@,
            DsSalt::CnSignin => "LyD1rXqMv2GJhnwdvCBjFOKGiKuLY3aO"@,
            DsSalt::CnPassport => "JwYDpKvLj6MrMqqYU6jTKF17KNO2PXoS"@,
        }
    }

    /// The salt of a region's community endpoints.
    pub open spec fn of_region(region: Region) -> DsSalt {
        match region {
            Region::Overseas => DsSalt::Overseas,
            Region::Chinese => DsSalt::Chinese,
        }
    }

    /// Returns the salt's secret text.
    pub fn val(&self) -> (r: &'static str)
        ensures
            r@ == self.secret(),
    {
        match self {
            Self::Overseas => "6s25p5ox5y14umn1p61aqyyvbvvl3lrt",
            Self::Chinese => "xV8v4Qu54lUKrEYFZkJhB8cuOh9Asafs",
            Self::AppLogin => "IZPgfb0dRPtBeLuFkdDznSZ6f4wWt6y2",
            Self::CnSignin => "LyD1rXqMv2GJhnwdvCBjFOKGiKuLY3aO",
            Self::CnPassport => "JwYDpKvLj6MrMqqYU6jTKF17KNO2PXoS",
        }
    }

}

impl From<Region> for DsSalt {
    /// Returns the salt of a region's community endpoints.
    fn from(value: Region) -> (r: DsSalt) {
        match value {
            Region::Overseas => Self::Overseas,
            Region::Chinese => Self::Chinese,
        }
    }
}

impl FromSpecImpl<Region> for DsSalt {
    open spec fn obeys_from_spec() -> bool {
        true
    }

    open spec fn from_spec(value: Region) -> DsSalt {
        DsSalt::of_region(value)
    }
}

/// The status codes with which the game record endpoints ask for a geetest.
pub const GEETEST_RETCODES: [u32; 4] = [10035, 5003, 10041, 1034];

/// Whether the service has a title's account endpoints for the game.
pub open spec fn has_account_endpoints(game: Game) -> bool {
    game != Game::Tot
}

/// The application key of a game in a region.
pub fn get_app_keys(game: Game, region: Region) -> (r: &'static str)
    requires
        has_account_endpoints(game),
    ensures
        r@ == match (game, region) {
            (Game::Genshin, Region::Overseas) => "6a4c78fe0356ba4673b8071127b28123"@,
            (Game::Genshin, Region::Chinese) => "d0d3a7342df2026a70f650b907800111"@,
            (Game::Starrail, Region::Overseas) => "d74818dabd4182d4fbac7f8df1622648"@,
            (Game::Starrail, Region::Chinese) => "4650f3a396d34d576c3d65df26415394"@,
            (Game::Honkai, Region::Overseas) => "243187699ab762b682a2a2e50ba02285"@,
            (Game::Honkai, Region::Chinese) => "0ebc517adb1b62c6b408df153331f9aa"@,
            (Game::ZZZ, Region::Overseas) => "ff0f2776bf515d79d1f8ff1fb98b2a06"@,
            (_, _) => "4650f3a396d34d576c3d65df26415394"@,
        },
{
    match game {
        Game::Genshin => match region {
            Region::Overseas => "6a4c78fe0356ba4673b8071127b28123",
            Region::Chinese => "d0d3a7342df2026a70f650b907800111",
        },
        Game::Starrail => match region {
            Region::Overseas => "d74818dabd4182d4fbac7f8df1622648",
            Region::Chinese => "4650f3a396d34d576c3d65df26415394",
        },
        Game::Honkai => match region {
            Region::Overseas => "243187699ab762b682a2a2e50ba02285",
            Region::Chinese => "0ebc517adb1b62c6b408df153331f9aa",
        },
        _ => match region {
            Region::Overseas => "ff0f2776bf515d79d1f8ff1fb98b2a06",
            Region::Chinese => "4650f3a396d34d576c3d65df26415394",
        },
    }
}

/// The application id of a game in a region.
pub fn get_app_ids(game: Game, region: Region) -> (r: &'static str)
    requires
        has_account_endpoints(game),
    ensures
        r@ == match (game, region) {
            (Game::Genshin, _) => "4"@,
            (Game::Starrail, Region::Overseas) => "11"@,
            (Game::Starrail, Region::Chinese) => "8"@,
            (Game::Honkai, Region::Overseas) => "8"@,
            (Game::Honkai, Region::Chinese) => "1"@,
            (_, Region::Overseas) => "15"@,
            (_, Region::Chinese) => "12"@,
        },
{
    match game {
        Game::Genshin => "4",
        Game::Starrail => match region {
            Region::Overseas => "11",
            Region::Chinese => "8",
        },
        Game::Honkai => match region {
            Region::Overseas => "8",
            Region::Chinese => "1",
        },
        _ => match region {
            Region::Overseas => "15",
            Region::Chinese => "12",
        },
    }
}

/// The key under which a game's record endpoints file a geetest.
pub fn get_geetest_record_keys(game: Game) -> (r: &'static str)
    requires
        has_account_endpoints(game),
    ensures
        r@ == match game {
            Game::Genshin => "genshin_game_record"@,
            Game::Starrail => "hkrpg_game_record"@,
            Game::Honkai => "bh3_game_record"@,
            _ => "nap_game_record"@,
        },
{
    match game {
        Game::Genshin => "genshin_game_record",
        Game::Starrail => "hkrpg_game_record",
        Game::Honkai => "bh3_game_record",
        _ => "nap_game_record",
    }
}

/// The business name of a game in a region.
pub fn get_bizs(game: Game, region: Region) -> (r: &'static str)
    requires
        has_account_endpoints(game),
    ensures
        r@ == match (game, region) {
            (Game::Genshin, Region::Overseas) => "hk4e_global"@,
            (Game::Genshin, Region::Chinese) => "hk4e_cn"@,
            (Game::Starrail, Region::Overseas) => "hkrpg_global"@,
            (Game::Starrail, Region::Chinese) => "hkrpg_cn"@,
            (Game::Honkai, Region::Overseas) => "bh3_os"@,
            (Game::Honkai, Region::Chinese) => "bh3_cn"@,
            (_, Region::Overseas) => "nap_global"@,
            (_, Region::Chinese) => "nap_cn"@,
        },
{
    match game {
        Game::Genshin => match region {
            Region::Overseas => "hk4e_global",
            Region::Chinese => "hk4e_cn",
        },
        Game::Starrail => match region {
            Region::Overseas => "hkrpg_global",
            Region::Chinese => "hkrpg_cn",
        },
        Game::Honkai => match region {
            Region::Overseas => "bh3_os",
            Region::Chinese => "bh3_cn",
        },
        _ => match region {
            Region::Overseas => "nap_global",
            Region::Chinese => "nap_cn",
        },
    }
}

} // verus!

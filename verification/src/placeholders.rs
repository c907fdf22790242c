//! The `{word}` placeholders of the catalog's texts: every language fills
//! the same ones, in the same order, as English.

use vstd::prelude::*;

use crate::catalog::{catalog, text_ar, text_en, text_es, text_hi, text_pt, text_ru, text_zh, Msg};
use crate::i18n::Language;

verus! {

/// The placeholders of `s` from position `i` on, where `open` is the
/// position of the last `{` not yet closed (or -1).
pub open spec fn scan_placeholders(s: Seq<char>, i: int, open: int) -> Seq<Seq<char>>
    decreases s.len() - i,
{
    if i < 0 || i >= s.len() {
        Seq::empty()
    } else if s[i] == '{' {
        scan_placeholders(s, i + 1, i)
    } else if s[i] == '}' && open >= 0 && i > open + 1 {
        seq![s.subrange(open + 1, i)] + scan_placeholders(s, i + 1, -1)
    } else if s[i] == '}' {
        scan_placeholders(s, i + 1, -1)
    } else {
        scan_placeholders(s, i + 1, open)
    }
}

/// The placeholders of a text, in order: each `{word}` where `word` is one
/// or more characters other than braces.
pub open spec fn placeholders(s: Seq<char>) -> Seq<Seq<char>> {
    scan_placeholders(s, 0, -1)
}
proof fn lemma_placeholders_en_home()
    ensures
        placeholders(text_en(Msg::Home)) == Seq::<Seq<char>>::empty(),
{
    reveal_strlit("Home");
    let s = text_en(Msg::Home);
    reveal_with_fuel(scan_placeholders, 6);
    assert(placeholders(s) =~= Seq::<Seq<char>>::empty());
}

proof fn lemma_placeholders_zh_home()
    ensures
        placeholders(text_zh(Msg::Home)) == Seq::<Seq<char>>::empty(),
{
    reveal_strlit("主页");
    let s = text_zh(Msg::Home);
    reveal_with_fuel(scan_placeholders, 4);
    assert(placeholders(s) =~= Seq::<Seq<char>>::empty());
}

proof fn lemma_placeholders_es_home()
    ensures
        placeholders(text_es(Msg::Home)) == Seq::<Seq<char>>::empty(),
{
    reveal_strlit("Inicio");
    let s = text_es(Msg::Home);
    reveal_with_fuel(scan_placeholders, 8);
    assert(placeholders(s) =~= Seq::<Seq<char>>::empty());
}

proof fn lemma_placeholders_hi_home()
    ensures
        placeholders(text_hi(Msg::Home)) == Seq::<Seq<char>>::empty(),
{
    reveal_strlit("होम");
    let s = text_hi(Msg::Home);
    reveal_with_fuel(scan_placeholders, 5);
    assert(placeholders(s) =~= Seq::<Seq<char>>::empty());
}

proof fn lemma_placeholders_ar_home()
    ensures
        placeholders(text_ar(Msg::Home)) == Seq::<Seq<char>>::empty(),
{
    reveal_strlit("الرئيسية");
    let s = text_ar(Msg::Home);
    reveal_with_fuel(scan_placeholders, 10);
    assert(placeholders(s) =~= Seq::<Seq<char>>::empty());
}

proof fn lemma_placeholders_pt_home()
    ensures
        placeholders(text_pt(Msg::Home)) == Seq::<Seq<char>>::empty(),
{
    reveal_strlit("Início");
    let s = text_pt(Msg::Home);
    reveal_with_fuel(scan_placeholders, 8);
    assert(placeholders(s) =~= Seq::<Seq<char>>::empty());
}

proof fn lemma_placeholders_ru_home()
    ensures
        placeholders(text_ru(Msg::Home)) == Seq::<Seq<char>>::empty(),
{
    reveal_strlit("Главная");
    let s = text_ru(Msg::Home);
    reveal_with_fuel(scan_placeholders, 9);
    assert(placeholders(s) =~= Seq::<Seq<char>>::empty());
}

proof fn lemma_placeholders_en_all()
    ensures
        placeholders(text_en(Msg::All)) == Seq::<Seq<char>>::empty(),
{
    reveal_strlit("All");
    let s = text_en(Msg::All);
    reveal_with_fuel(scan_placeholders, 5);
    assert(placeholders(s) =~= Seq::<Seq<char>>::empty());
}

proof fn lemma_placeholders_zh_all()
    ensures
        placeholders(text_zh(Msg::All)) == Seq::<Seq<char>>::empty(),
{
    reveal_strlit("全部");
    let s = text_zh(Msg::All);
    reveal_with_fuel(scan_placeholders, 4);
    assert(placeholders(s) =~= Seq::<Seq<char>>::empty());
}

proof fn lemma_placeholders_es_all()
    ensures
        placeholders(text_es(Msg::All)) == Seq::<Seq<char>>::empty(),
{
    reveal_strlit("Todos");
    let s = text_es(Msg::All);
    reveal_with_fuel(scan_placeholders, 7);
    assert(placeholders(s) =~= Seq::<Seq<char>>::empty());
}

proof fn lemma_placeholders_hi_all()
    ensures
        placeholders(text_hi(Msg::All)) == Seq::<Seq<char>>::empty(),
{
    reveal_strlit("सभी");
    let s = text_hi(Msg::All);
    reveal_with_fuel(scan_placeholders, 5);
    assert(placeholders(s) =~= Seq::<Seq<char>>::empty());
}

proof fn lemma_placeholders_ar_all()
    ensures
        placeholders(text_ar(Msg::All)) == Seq::<Seq<char>>::empty(),
{
    reveal_strlit("الكل");
    let s = text_ar(Msg::All);
    reveal_with_fuel(scan_placeholders, 6);
    assert(placeholders(s) =~= Seq::<Seq<char>>::empty());
}

proof fn lemma_placeholders_pt_all()
    ensures
        placeholders(text_pt(Msg::All)) == Seq::<Seq<char>>::empty(),
{
    reveal_strlit("Todos");
    let s = text_pt(Msg::All);
    reveal_with_fuel(scan_placeholders, 7);
    assert(placeholders(s) =~= Seq::<Seq<char>>::empty());
}

proof fn lemma_placeholders_ru_all()
    ensures
        placeholders(text_ru(Msg::All)) == Seq::<Seq<char>>::empty(),
{
    reveal_strlit("Все");
    let s = text_ru(Msg::All);
    reveal_with_fuel(scan_placeholders, 5);
    assert(placeholders(s) =~= Seq::<Seq<char>>::empty());
}

proof fn lemma_placeholders_en_all_apps()
    ensures
        placeholders(text_en(Msg::AllApps)) == Seq::<Seq<char>>::empty(),
{
    reveal_strlit("All apps");
    let s = text_en(Msg::AllApps);
    reveal_with_fuel(scan_placeholders, 10);
    assert(placeholders(s) =~= Seq::<Seq<char>>::empty());
}

proof fn lemma_placeholders_zh_all_apps()
    ensures
        placeholders(text_zh(Msg::AllApps)) == Seq::<Seq<char>>::empty(),
{
    reveal_strlit("全部应用");
    let s = text_zh(Msg::AllApps);
    reveal_with_fuel(scan_placeholders, 6);
    assert(placeholders(s) =~= Seq::<Seq<char>>::empty());
}

proof fn lemma_placeholders_es_all_apps()
    ensures
        placeholders(text_es(Msg::AllApps)) == Seq::<Seq<char>>::empty(),
{
    reveal_strlit("Todas las apps");
    let s = text_es(Msg::AllApps);
    reveal_with_fuel(scan_placeholders, 16);
    assert(placeholders(s) =~= Seq::<Seq<char>>::empty());
}

proof fn lemma_placeholders_hi_all_apps()
    ensures
        placeholders(text_hi(Msg::AllApps)) == Seq::<Seq<char>>::empty(),
{
    reveal_strlit("सभी ऐप्स");
    let s = text_hi(Msg::AllApps);
    reveal_with_fuel(scan_placeholders, 10);
    assert(placeholders(s) =~= Seq::<Seq<char>>::empty());
}

proof fn lemma_placeholders_ar_all_apps()
    ensures
        placeholders(text_ar(Msg::AllApps)) == Seq::<Seq<char>>::empty(),
{
    reveal_strlit("كل التطبيقات");
    let s = text_ar(Msg::AllApps);
    reveal_with_fuel(scan_placeholders, 14);
    assert(placeholders(s) =~= Seq::<Seq<char>>::empty());
}

proof fn lemma_placeholders_pt_all_apps()
    ensures
        placeholders(text_pt(Msg::AllApps)) == Seq::<Seq<char>>::empty(),
{
    reveal_strlit("Todos os aplicativos");
    let s = text_pt(Msg::AllApps);
    reveal_with_fuel(scan_placeholders, 22);
    assert(placeholders(s) =~= Seq::<Seq<char>>::empty());
}

proof fn lemma_placeholders_ru_all_apps()
    ensures
        placeholders(text_ru(Msg::AllApps)) == Seq::<Seq<char>>::empty(),
{
    reveal_strlit("Все приложения");
    let s = text_ru(Msg::AllApps);
    reveal_with_fuel(scan_placeholders, 16);
    assert(placeholders(s) =~= Seq::<Seq<char>>::empty());
}

proof fn lemma_placeholders_en_settings()
    ensures
        placeholders(text_en(Msg::Settings)) == Seq::<Seq<char>>::empty(),
{
    reveal_strlit("Settings");
    let s = text_en(Msg::Settings);
    reveal_with_fuel(scan_placeholders, 10);
    assert(placeholders(s) =~= Seq::<Seq<char>>::empty());
}

proof fn lemma_placeholders_zh_settings()
    ensures
        placeholders(text_zh(Msg::Settings)) == Seq::<Seq<char>>::empty(),
{
    reveal_strlit("设置");
    let s = text_zh(Msg::Settings);
    reveal_with_fuel(scan_placeholders, 4);
    assert(placeholders(s) =~= Seq::<Seq<char>>::empty());
}

proof fn lemma_placeholders_es_settings()
    ensures
        placeholders(text_es(Msg::Settings)) == Seq::<Seq<char>>::empty(),
{
    reveal_strlit("Configuración");
    let s = text_es(Msg::Settings);
    reveal_with_fuel(scan_placeholders, 15);
    assert(placeholders(s) =~= Seq::<Seq<char>>::empty());
}

proof fn lemma_placeholders_hi_settings()
    ensures
        placeholders(text_hi(Msg::Settings)) == Seq::<Seq<char>>::empty(),
{
    reveal_strlit("सेटिंग्स");
    let s = text_hi(Msg::Settings);
    reveal_with_fuel(scan_placeholders, 10);
    assert(placeholders(s) =~= Seq::<Seq<char>>::empty());
}

proof fn lemma_placeholders_ar_settings()
    ensures
        placeholders(text_ar(Msg::Settings)) == Seq::<Seq<char>>::empty(),
{
    reveal_strlit("الإعدادات");
    let s = text_ar(Msg::Settings);
    reveal_with_fuel(scan_placeholders, 11);
    assert(placeholders(s) =~= Seq::<Seq<char>>::empty());
}

proof fn lemma_placeholders_pt_settings()
    ensures
        placeholders(text_pt(Msg::Settings)) == Seq::<Seq<char>>::empty(),
{
    reveal_strlit("Configurações");
    let s = text_pt(Msg::Settings);
    reveal_with_fuel(scan_placeholders, 15);
    assert(placeholders(s) =~= Seq::<Seq<char>>::empty());
}

proof fn lemma_placeholders_ru_settings()
    ensures
        placeholders(text_ru(Msg::Settings)) == Seq::<Seq<char>>::empty(),
{
    reveal_strlit("Настройки");
    let s = text_ru(Msg::Settings);
    reveal_with_fuel(scan_placeholders, 11);
    assert(placeholders(s) =~= Seq::<Seq<char>>::empty());
}

proof fn lemma_placeholders_en_system()
    ensures
        placeholders(text_en(Msg::System)) == Seq::<Seq<char>>::empty(),
{
    reveal_strlit("System");
    let s = text_en(Msg::System);
    reveal_with_fuel(scan_placeholders, 8);
    assert(placeholders(s) =~= Seq::<Seq<char>>::empty());
}

proof fn lemma_placeholders_zh_system()
    ensures
        placeholders(text_zh(Msg::System)) == Seq::<Seq<char>>::empty(),
{
    reveal_strlit("系统");
    let s = text_zh(Msg::System);
    reveal_with_fuel(scan_placeholders, 4);
    assert(placeholders(s) =~= Seq::<Seq<char>>::empty());
}

proof fn lemma_placeholders_es_system()
    ensures
        placeholders(text_es(Msg::System)) == Seq::<Seq<char>>::empty(),
{
    reveal_strlit("Sistema");
    let s = text_es(Msg::System);
    reveal_with_fuel(scan_placeholders, 9);
    assert(placeholders(s) =~= Seq::<Seq<char>>::empty());
}

proof fn lemma_placeholders_hi_system()
    ensures
        placeholders(text_hi(Msg::System)) == Seq::<Seq<char>>::empty(),
{
    reveal_strlit("सिस्टम");
    let s = text_hi(Msg::System);
    reveal_with_fuel(scan_placeholders, 8);
    assert(placeholders(s) =~= Seq::<Seq<char>>::empty());
}

proof fn lemma_placeholders_ar_system()
    ensures
        placeholders(text_ar(Msg::System)) == Seq::<Seq<char>>::empty(),
{
    reveal_strlit("النظام");
    let s = text_ar(Msg::System);
    reveal_with_fuel(scan_placeholders, 8);
    assert(placeholders(s) =~= Seq::<Seq<char>>::empty());
}

proof fn lemma_placeholders_pt_system()
    ensures
        placeholders(text_pt(Msg::System)) == Seq::<Seq<char>>::empty(),
{
    reveal_strlit("Sistema");
    let s = text_pt(Msg::System);
    reveal_with_fuel(scan_placeholders, 9);
    assert(placeholders(s) =~= Seq::<Seq<char>>::empty());
}

proof fn lemma_placeholders_ru_system()
    ensures
        placeholders(text_ru(Msg::System)) == Seq::<Seq<char>>::empty(),
{
    reveal_strlit("Система");
    let s = text_ru(Msg::System);
    reveal_with_fuel(scan_placeholders, 9);
    assert(placeholders(s) =~= Seq::<Seq<char>>::empty());
}

proof fn lemma_placeholders_en_manual()
    ensures
        placeholders(text_en(Msg::Manual)) == Seq::<Seq<char>>::empty(),
{
    reveal_strlit("Manual");
    let s = text_en(Msg::Manual);
    reveal_with_fuel(scan_placeholders, 8);
    assert(placeholders(s) =~= Seq::<Seq<char>>::empty());
}

proof fn lemma_placeholders_zh_manual()
    ensures
        placeholders(text_zh(Msg::Manual)) == Seq::<Seq<char>>::empty(),
{
    reveal_strlit("手动");
    let s = text_zh(Msg::Manual);
    reveal_with_fuel(scan_placeholders, 4);
    assert(placeholders(s) =~= Seq::<Seq<char>>::empty());
}

proof fn lemma_placeholders_es_manual()
    ensures
        placeholders(text_es(Msg::Manual)) == Seq::<Seq<char>>::empty(),
{
    reveal_strlit("Manual");
    let s = text_es(Msg::Manual);
    reveal_with_fuel(scan_placeholders, 8);
    assert(placeholders(s) =~= Seq::<Seq<char>>::empty());
}

proof fn lemma_placeholders_hi_manual()
    ensures
        placeholders(text_hi(Msg::Manual)) == Seq::<Seq<char>>::empty(),
{
    reveal_strlit("मैनुअल");
    let s = text_hi(Msg::Manual);
    reveal_with_fuel(scan_placeholders, 8);
    assert(placeholders(s) =~= Seq::<Seq<char>>::empty());
}

proof fn lemma_placeholders_ar_manual()
    ensures
        placeholders(text_ar(Msg::Manual)) == Seq::<Seq<char>>::empty(),
{
    reveal_strlit("يدوي");
    let s = text_ar(Msg::Manual);
    reveal_with_fuel(scan_placeholders, 6);
    assert(placeholders(s) =~= Seq::<Seq<char>>::empty());
}

proof fn lemma_placeholders_pt_manual()
    ensures
        placeholders(text_pt(Msg::Manual)) == Seq::<Seq<char>>::empty(),
{
    reveal_strlit("Manual");
    let s = text_pt(Msg::Manual);
    reveal_with_fuel(scan_placeholders, 8);
    assert(placeholders(s) =~= Seq::<Seq<char>>::empty());
}

proof fn lemma_placeholders_ru_manual()
    ensures
        placeholders(text_ru(Msg::Manual)) == Seq::<Seq<char>>::empty(),
{
    reveal_strlit("Вручную");
    let s = text_ru(Msg::Manual);
    reveal_with_fuel(scan_placeholders, 9);
    assert(placeholders(s) =~= Seq::<Seq<char>>::empty());
}

proof fn lemma_placeholders_en_apps_installed()
    ensures
        placeholders(text_en(Msg::AppsInstalled)) == Seq::<Seq<char>>::empty(),
{
    reveal_strlit("Installed apps");
    let s = text_en(Msg::AppsInstalled);
    reveal_with_fuel(scan_placeholders, 16);
    assert(placeholders(s) =~= Seq::<Seq<char>>::empty());
}

proof fn lemma_placeholders_zh_apps_installed()
    ensures
        placeholders(text_zh(Msg::AppsInstalled)) == Seq::<Seq<char>>::empty(),
{
    reveal_strlit("已安装的应用");
    let s = text_zh(Msg::AppsInstalled);
    reveal_with_fuel(scan_placeholders, 8);
    assert(placeholders(s) =~= Seq::<Seq<char>>::empty());
}

proof fn lemma_placeholders_es_apps_installed()
    ensures
        placeholders(text_es(Msg::AppsInstalled)) == Seq::<Seq<char>>::empty(),
{
    reveal_strlit("Aplicaciones instaladas");
    let s = text_es(Msg::AppsInstalled);
    reveal_with_fuel(scan_placeholders, 25);
    assert(placeholders(s) =~= Seq::<Seq<char>>::empty());
}

proof fn lemma_placeholders_hi_apps_installed()
    ensures
        placeholders(text_hi(Msg::AppsInstalled)) == Seq::<Seq<char>>::empty(),
{
    reveal_strlit("इंस्टॉल किए गए ऐप्स");
    let s = text_hi(Msg::AppsInstalled);
    reveal_with_fuel(scan_placeholders, 21);
    assert(placeholders(s) =~= Seq::<Seq<char>>::empty());
}

proof fn lemma_placeholders_ar_apps_installed()
    ensures
        placeholders(text_ar(Msg::AppsInstalled)) == Seq::<Seq<char>>::empty(),
{
    reveal_strlit("التطبيقات المثبتة");
    let s = text_ar(Msg::AppsInstalled);
    reveal_with_fuel(scan_placeholders, 19);
    assert(placeholders(s) =~= Seq::<Seq<char>>::empty());
}

proof fn lemma_placeholders_pt_apps_installed()
    ensures
        placeholders(text_pt(Msg::AppsInstalled)) == Seq::<Seq<char>>::empty(),
{
    reveal_strlit("Aplicativos instalados");
    let s = text_pt(Msg::AppsInstalled);
    reveal_with_fuel(scan_placeholders, 24);
    assert(placeholders(s) =~= Seq::<Seq<char>>::empty());
}

proof fn lemma_placeholders_ru_apps_installed()
    ensures
        placeholders(text_ru(Msg::AppsInstalled)) == Seq::<Seq<char>>::empty(),
{
    reveal_strlit("Установленные приложения");
    let s = text_ru(Msg::AppsInstalled);
    reveal_with_fuel(scan_placeholders, 26);
    assert(placeholders(s) =~= Seq::<Seq<char>>::empty());
}

proof fn lemma_placeholders_en_apps_count()
    ensures
        placeholders(text_en(Msg::AppsCount)) == seq!["n"@],
{
    reveal_strlit("n");
    reveal_strlit("{n} apps");
    let s = text_en(Msg::AppsCount);
    assert(s.subrange(1, 2) =~= "n"@);
    reveal_with_fuel(scan_placeholders, 10);
    assert(placeholders(s) =~= seq!["n"@]);
}

proof fn lemma_placeholders_zh_apps_count()
    ensures
        placeholders(text_zh(Msg::AppsCount)) == seq!["n"@],
{
    reveal_strlit("n");
    reveal_strlit("{n} 个应用");
    let s = text_zh(Msg::AppsCount);
    assert(s.subrange(1, 2) =~= "n"@);
    reveal_with_fuel(scan_placeholders, 9);
    assert(placeholders(s) =~= seq!["n"@]);
}

proof fn lemma_placeholders_es_apps_count()
    ensures
        placeholders(text_es(Msg::AppsCount)) == seq!["n"@],
{
    reveal_strlit("n");
    reveal_strlit("{n} aplicaciones");
    let s = text_es(Msg::AppsCount);
    assert(s.subrange(1, 2) =~= "n"@);
    reveal_with_fuel(scan_placeholders, 18);
    assert(placeholders(s) =~= seq!["n"@]);
}

proof fn lemma_placeholders_hi_apps_count()
    ensures
        placeholders(text_hi(Msg::AppsCount)) == seq!["n"@],
{
    reveal_strlit("n");
    reveal_strlit("{n} ऐप्स");
    let s = text_hi(Msg::AppsCount);
    assert(s.subrange(1, 2) =~= "n"@);
    reveal_with_fuel(scan_placeholders, 10);
    assert(placeholders(s) =~= seq!["n"@]);
}

proof fn lemma_placeholders_ar_apps_count()
    ensures
        placeholders(text_ar(Msg::AppsCount)) == seq!["n"@],
{
    reveal_strlit("n");
    reveal_strlit("{n} تطبيقات");
    let s = text_ar(Msg::AppsCount);
    assert(s.subrange(1, 2) =~= "n"@);
    reveal_with_fuel(scan_placeholders, 13);
    assert(placeholders(s) =~= seq!["n"@]);
}

proof fn lemma_placeholders_pt_apps_count()
    ensures
        placeholders(text_pt(Msg::AppsCount)) == seq!["n"@],
{
    reveal_strlit("n");
    reveal_strlit("{n} aplicativos");
    let s = text_pt(Msg::AppsCount);
    assert(s.subrange(1, 2) =~= "n"@);
    reveal_with_fuel(scan_placeholders, 17);
    assert(placeholders(s) =~= seq!["n"@]);
}

proof fn lemma_placeholders_ru_apps_count()
    ensures
        placeholders(text_ru(Msg::AppsCount)) == seq!["n"@],
{
    reveal_strlit("n");
    reveal_strlit("{n} приложений");
    let s = text_ru(Msg::AppsCount);
    assert(s.subrange(1, 2) =~= "n"@);
    reveal_with_fuel(scan_placeholders, 16);
    assert(placeholders(s) =~= seq!["n"@]);
}

proof fn lemma_placeholders_en_apps_count_paren()
    ensures
        placeholders(text_en(Msg::AppsCountParen)) == seq!["n"@],
{
    reveal_strlit("n");
    reveal_strlit("{n} app(s)");
    let s = text_en(Msg::AppsCountParen);
    assert(s.subrange(1, 2) =~= "n"@);
    reveal_with_fuel(scan_placeholders, 12);
    assert(placeholders(s) =~= seq!["n"@]);
}

proof fn lemma_placeholders_zh_apps_count_paren()
    ensures
        placeholders(text_zh(Msg::AppsCountParen)) == seq!["n"@],
{
    reveal_strlit("n");
    reveal_strlit("{n} 个应用");
    let s = text_zh(Msg::AppsCountParen);
    assert(s.subrange(1, 2) =~= "n"@);
    reveal_with_fuel(scan_placeholders, 9);
    assert(placeholders(s) =~= seq!["n"@]);
}

proof fn lemma_placeholders_es_apps_count_paren()
    ensures
        placeholders(text_es(Msg::AppsCountParen)) == seq!["n"@],
{
    reveal_strlit("n");
    reveal_strlit("{n} aplicación(es)");
    let s = text_es(Msg::AppsCountParen);
    assert(s.subrange(1, 2) =~= "n"@);
    reveal_with_fuel(scan_placeholders, 20);
    assert(placeholders(s) =~= seq!["n"@]);
}

proof fn lemma_placeholders_hi_apps_count_paren()
    ensures
        placeholders(text_hi(Msg::AppsCountParen)) == seq!["n"@],
{
    reveal_strlit("n");
    reveal_strlit("{n} ऐप");
    let s = text_hi(Msg::AppsCountParen);
    assert(s.subrange(1, 2) =~= "n"@);
    reveal_with_fuel(scan_placeholders, 8);
    assert(placeholders(s) =~= seq!["n"@]);
}

proof fn lemma_placeholders_ar_apps_count_paren()
    ensures
        placeholders(text_ar(Msg::AppsCountParen)) == seq!["n"@],
{
    reveal_strlit("n");
    reveal_strlit("{n} تطبيق(ات)");
    let s = text_ar(Msg::AppsCountParen);
    assert(s.subrange(1, 2) =~= "n"@);
    reveal_with_fuel(scan_placeholders, 15);
    assert(placeholders(s) =~= seq!["n"@]);
}

proof fn lemma_placeholders_pt_apps_count_paren()
    ensures
        placeholders(text_pt(Msg::AppsCountParen)) == seq!["n"@],
{
    reveal_strlit("n");
    reveal_strlit("{n} aplicativo(s)");
    let s = text_pt(Msg::AppsCountParen);
    assert(s.subrange(1, 2) =~= "n"@);
    reveal_with_fuel(scan_placeholders, 19);
    assert(placeholders(s) =~= seq!["n"@]);
}

proof fn lemma_placeholders_ru_apps_count_paren()
    ensures
        placeholders(text_ru(Msg::AppsCountParen)) == seq!["n"@],
{
    reveal_strlit("n");
    reveal_strlit("{n} прилож.");
    let s = text_ru(Msg::AppsCountParen);
    assert(s.subrange(1, 2) =~= "n"@);
    reveal_with_fuel(scan_placeholders, 13);
    assert(placeholders(s) =~= seq!["n"@]);
}

proof fn lemma_placeholders_en_searching_apps()
    ensures
        placeholders(text_en(Msg::SearchingApps)) == Seq::<Seq<char>>::empty(),
{
    reveal_strlit("Searching for apps...");
    let s = text_en(Msg::SearchingApps);
    reveal_with_fuel(scan_placeholders, 23);
    assert(placeholders(s) =~= Seq::<Seq<char>>::empty());
}

proof fn lemma_placeholders_zh_searching_apps()
    ensures
        placeholders(text_zh(Msg::SearchingApps)) == Seq::<Seq<char>>::empty(),
{
    reveal_strlit("正在查找应用...");
    let s = text_zh(Msg::SearchingApps);
    reveal_with_fuel(scan_placeholders, 11);
    assert(placeholders(s) =~= Seq::<Seq<char>>::empty());
}

proof fn lemma_placeholders_es_searching_apps()
    ensures
        placeholders(text_es(Msg::SearchingApps)) == Seq::<Seq<char>>::empty(),
{
    reveal_strlit("Buscando aplicaciones...");
    let s = text_es(Msg::SearchingApps);
    reveal_with_fuel(scan_placeholders, 26);
    assert(placeholders(s) =~= Seq::<Seq<char>>::empty());
}

proof fn lemma_placeholders_hi_searching_apps()
    ensures
        placeholders(text_hi(Msg::SearchingApps)) == Seq::<Seq<char>>::empty(),
{
    reveal_strlit("ऐप्स खोजे जा रहे हैं...");
    let s = text_hi(Msg::SearchingApps);
    reveal_with_fuel(scan_placeholders, 25);
    assert(placeholders(s) =~= Seq::<Seq<char>>::empty());
}

proof fn lemma_placeholders_ar_searching_apps()
    ensures
        placeholders(text_ar(Msg::SearchingApps)) == Seq::<Seq<char>>::empty(),
{
    reveal_strlit("جاري البحث عن التطبيقات...");
    let s = text_ar(Msg::SearchingApps);
    reveal_with_fuel(scan_placeholders, 28);
    assert(placeholders(s) =~= Seq::<Seq<char>>::empty());
}

proof fn lemma_placeholders_pt_searching_apps()
    ensures
        placeholders(text_pt(Msg::SearchingApps)) == Seq::<Seq<char>>::empty(),
{
    reveal_strlit("Procurando aplicativos...");
    let s = text_pt(Msg::SearchingApps);
    reveal_with_fuel(scan_placeholders, 27);
    assert(placeholders(s) =~= Seq::<Seq<char>>::empty());
}

proof fn lemma_placeholders_ru_searching_apps()
    ensures
        placeholders(text_ru(Msg::SearchingApps)) == Seq::<Seq<char>>::empty(),
{
    reveal_strlit("Поиск приложений...");
    let s = text_ru(Msg::SearchingApps);
    reveal_with_fuel(scan_placeholders, 21);
    assert(placeholders(s) =~= Seq::<Seq<char>>::empty());
}

proof fn lemma_placeholders_en_searching_method()
    ensures
        placeholders(text_en(Msg::SearchingMethod)) == seq!["method"@],
{
    reveal_strlit("method");
    reveal_strlit("Searching: {method}...");
    let s = text_en(Msg::SearchingMethod);
    assert(s.subrange(12, 18) =~= "method"@);
    reveal_with_fuel(scan_placeholders, 24);
    assert(placeholders(s) =~= seq!["method"@]);
}

proof fn lemma_placeholders_zh_searching_method()
    ensures
        placeholders(text_zh(Msg::SearchingMethod)) == seq!["method"@],
{
    reveal_strlit("method");
    reveal_strlit("正在查找：{method}...");
    let s = text_zh(Msg::SearchingMethod);
    assert(s.subrange(6, 12) =~= "method"@);
    reveal_with_fuel(scan_placeholders, 18);
    assert(placeholders(s) =~= seq!["method"@]);
}

proof fn lemma_placeholders_es_searching_method()
    ensures
        placeholders(text_es(Msg::SearchingMethod)) == seq!["method"@],
{
    reveal_strlit("method");
    reveal_strlit("Buscando: {method}...");
    let s = text_es(Msg::SearchingMethod);
    assert(s.subrange(11, 17) =~= "method"@);
    reveal_with_fuel(scan_placeholders, 23);
    assert(placeholders(s) =~= seq!["method"@]);
}

proof fn lemma_placeholders_hi_searching_method()
    ensures
        placeholders(text_hi(Msg::SearchingMethod)) == seq!["method"@],
{
    reveal_strlit("method");
    reveal_strlit("खोज रहे हैं: {method}...");
    let s = text_hi(Msg::SearchingMethod);
    assert(s.subrange(14, 20) =~= "method"@);
    reveal_with_fuel(scan_placeholders, 26);
    assert(placeholders(s) =~= seq!["method"@]);
}

proof fn lemma_placeholders_ar_searching_method()
    ensures
        placeholders(text_ar(Msg::SearchingMethod)) == seq!["method"@],
{
    reveal_strlit("method");
    reveal_strlit("جاري البحث: {method}...");
    let s = text_ar(Msg::SearchingMethod);
    assert(s.subrange(13, 19) =~= "method"@);
    reveal_with_fuel(scan_placeholders, 25);
    assert(placeholders(s) =~= seq!["method"@]);
}

proof fn lemma_placeholders_pt_searching_method()
    ensures
        placeholders(text_pt(Msg::SearchingMethod)) == seq!["method"@],
{
    reveal_strlit("method");
    reveal_strlit("Procurando: {method}...");
    let s = text_pt(Msg::SearchingMethod);
    assert(s.subrange(13, 19) =~= "method"@);
    reveal_with_fuel(scan_placeholders, 25);
    assert(placeholders(s) =~= seq!["method"@]);
}

proof fn lemma_placeholders_ru_searching_method()
    ensures
        placeholders(text_ru(Msg::SearchingMethod)) == seq!["method"@],
{
    reveal_strlit("method");
    reveal_strlit("Поиск: {method}...");
    let s = text_ru(Msg::SearchingMethod);
    assert(s.subrange(8, 14) =~= "method"@);
    reveal_with_fuel(scan_placeholders, 20);
    assert(placeholders(s) =~= seq!["method"@]);
}

proof fn lemma_placeholders_en_method_count()
    ensures
        placeholders(text_en(Msg::MethodCount)) == seq!["method"@, "n"@],
{
    reveal_strlit("method");
    reveal_strlit("n");
    reveal_strlit("{method}: {n} app(s)");
    let s = text_en(Msg::MethodCount);
    assert(s.subrange(1, 7) =~= "method"@);
    assert(s.subrange(11, 12) =~= "n"@);
    reveal_with_fuel(scan_placeholders, 22);
    assert(placeholders(s) =~= seq!["method"@, "n"@]);
}

proof fn lemma_placeholders_zh_method_count()
    ensures
        placeholders(text_zh(Msg::MethodCount)) == seq!["method"@, "n"@],
{
    reveal_strlit("method");
    reveal_strlit("n");
    reveal_strlit("{method}：{n} 个应用");
    let s = text_zh(Msg::MethodCount);
    assert(s.subrange(1, 7) =~= "method"@);
    assert(s.subrange(10, 11) =~= "n"@);
    reveal_with_fuel(scan_placeholders, 18);
    assert(placeholders(s) =~= seq!["method"@, "n"@]);
}

proof fn lemma_placeholders_es_method_count()
    ensures
        placeholders(text_es(Msg::MethodCount)) == seq!["method"@, "n"@],
{
    reveal_strlit("method");
    reveal_strlit("n");
    reveal_strlit("{method}: {n} aplicación(es)");
    let s = text_es(Msg::MethodCount);
    assert(s.subrange(1, 7) =~= "method"@);
    assert(s.subrange(11, 12) =~= "n"@);
    reveal_with_fuel(scan_placeholders, 30);
    assert(placeholders(s) =~= seq!["method"@, "n"@]);
}

proof fn lemma_placeholders_hi_method_count()
    ensures
        placeholders(text_hi(Msg::MethodCount)) == seq!["method"@, "n"@],
{
    reveal_strlit("method");
    reveal_strlit("n");
    reveal_strlit("{method}: {n} ऐप");
    let s = text_hi(Msg::MethodCount);
    assert(s.subrange(1, 7) =~= "method"@);
    assert(s.subrange(11, 12) =~= "n"@);
    reveal_with_fuel(scan_placeholders, 18);
    assert(placeholders(s) =~= seq!["method"@, "n"@]);
}

proof fn lemma_placeholders_ar_method_count()
    ensures
        placeholders(text_ar(Msg::MethodCount)) == seq!["method"@, "n"@],
{
    reveal_strlit("method");
    reveal_strlit("n");
    reveal_strlit("{method}: {n} تطبيق(ات)");
    let s = text_ar(Msg::MethodCount);
    assert(s.subrange(1, 7) =~= "method"@);
    assert(s.subrange(11, 12) =~= "n"@);
    reveal_with_fuel(scan_placeholders, 25);
    assert(placeholders(s) =~= seq!["method"@, "n"@]);
}

proof fn lemma_placeholders_pt_method_count()
    ensures
        placeholders(text_pt(Msg::MethodCount)) == seq!["method"@, "n"@],
{
    reveal_strlit("method");
    reveal_strlit("n");
    reveal_strlit("{method}: {n} aplicativo(s)");
    let s = text_pt(Msg::MethodCount);
    assert(s.subrange(1, 7) =~= "method"@);
    assert(s.subrange(11, 12) =~= "n"@);
    reveal_with_fuel(scan_placeholders, 29);
    assert(placeholders(s) =~= seq!["method"@, "n"@]);
}

proof fn lemma_placeholders_ru_method_count()
    ensures
        placeholders(text_ru(Msg::MethodCount)) == seq!["method"@, "n"@],
{
    reveal_strlit("method");
    reveal_strlit("n");
    reveal_strlit("{method}: {n} прилож.");
    let s = text_ru(Msg::MethodCount);
    assert(s.subrange(1, 7) =~= "method"@);
    assert(s.subrange(11, 12) =~= "n"@);
    reveal_with_fuel(scan_placeholders, 23);
    assert(placeholders(s) =~= seq!["method"@, "n"@]);
}

proof fn lemma_placeholders_en_scan_done_toast()
    ensures
        placeholders(text_en(Msg::ScanDoneToast)) == seq!["n"@],
{
    reveal_strlit("n");
    reveal_strlit("Scan complete: {n} apps");
    let s = text_en(Msg::ScanDoneToast);
    assert(s.subrange(16, 17) =~= "n"@);
    reveal_with_fuel(scan_placeholders, 25);
    assert(placeholders(s) =~= seq!["n"@]);
}

proof fn lemma_placeholders_zh_scan_done_toast()
    ensures
        placeholders(text_zh(Msg::ScanDoneToast)) == seq!["n"@],
{
    reveal_strlit("n");
    reveal_strlit("扫描完成：{n} 个应用");
    let s = text_zh(Msg::ScanDoneToast);
    assert(s.subrange(6, 7) =~= "n"@);
    reveal_with_fuel(scan_placeholders, 14);
    assert(placeholders(s) =~= seq!["n"@]);
}

proof fn lemma_placeholders_es_scan_done_toast()
    ensures
        placeholders(text_es(Msg::ScanDoneToast)) == seq!["n"@],
{
    reveal_strlit("n");
    reveal_strlit("Escaneo completado: {n} apps");
    let s = text_es(Msg::ScanDoneToast);
    assert(s.subrange(21, 22) =~= "n"@);
    reveal_with_fuel(scan_placeholders, 30);
    assert(placeholders(s) =~= seq!["n"@]);
}

proof fn lemma_placeholders_hi_scan_done_toast()
    ensures
        placeholders(text_hi(Msg::ScanDoneToast)) == seq!["n"@],
{
    reveal_strlit("n");
    reveal_strlit("स्कैन पूरा: {n} ऐप्स");
    let s = text_hi(Msg::ScanDoneToast);
    assert(s.subrange(13, 14) =~= "n"@);
    reveal_with_fuel(scan_placeholders, 22);
    assert(placeholders(s) =~= seq!["n"@]);
}

proof fn lemma_placeholders_ar_scan_done_toast()
    ensures
        placeholders(text_ar(Msg::ScanDoneToast)) == seq!["n"@],
{
    reveal_strlit("n");
    reveal_strlit("اكتمل الفحص: {n} تطبيقات");
    let s = text_ar(Msg::ScanDoneToast);
    assert(s.subrange(14, 15) =~= "n"@);
    reveal_with_fuel(scan_placeholders, 26);
    assert(placeholders(s) =~= seq!["n"@]);
}

proof fn lemma_placeholders_pt_scan_done_toast()
    ensures
        placeholders(text_pt(Msg::ScanDoneToast)) == seq!["n"@],
{
    reveal_strlit("n");
    reveal_strlit("Varredura concluída: {n} apps");
    let s = text_pt(Msg::ScanDoneToast);
    assert(s.subrange(22, 23) =~= "n"@);
    reveal_with_fuel(scan_placeholders, 31);
    assert(placeholders(s) =~= seq!["n"@]);
}

proof fn lemma_placeholders_ru_scan_done_toast()
    ensures
        placeholders(text_ru(Msg::ScanDoneToast)) == seq!["n"@],
{
    reveal_strlit("n");
    reveal_strlit("Сканирование завершено: {n} прилож.");
    let s = text_ru(Msg::ScanDoneToast);
    assert(s.subrange(25, 26) =~= "n"@);
    reveal_with_fuel(scan_placeholders, 37);
    assert(placeholders(s) =~= seq!["n"@]);
}

proof fn lemma_placeholders_en_apps_found()
    ensures
        placeholders(text_en(Msg::AppsFound)) == seq!["n"@],
{
    reveal_strlit("n");
    reveal_strlit("{n} apps found");
    let s = text_en(Msg::AppsFound);
    assert(s.subrange(1, 2) =~= "n"@);
    reveal_with_fuel(scan_placeholders, 16);
    assert(placeholders(s) =~= seq!["n"@]);
}

proof fn lemma_placeholders_zh_apps_found()
    ensures
        placeholders(text_zh(Msg::AppsFound)) == seq!["n"@],
{
    reveal_strlit("n");
    reveal_strlit("找到 {n} 个应用");
    let s = text_zh(Msg::AppsFound);
    assert(s.subrange(4, 5) =~= "n"@);
    reveal_with_fuel(scan_placeholders, 12);
    assert(placeholders(s) =~= seq!["n"@]);
}

proof fn lemma_placeholders_es_apps_found()
    ensures
        placeholders(text_es(Msg::AppsFound)) == seq!["n"@],
{
    reveal_strlit("n");
    reveal_strlit("{n} aplicaciones encontradas");
    let s = text_es(Msg::AppsFound);
    assert(s.subrange(1, 2) =~= "n"@);
    reveal_with_fuel(scan_placeholders, 30);
    assert(placeholders(s) =~= seq!["n"@]);
}

proof fn lemma_placeholders_hi_apps_found()
    ensures
        placeholders(text_hi(Msg::AppsFound)) == seq!["n"@],
{
    reveal_strlit("n");
    reveal_strlit("{n} ऐप्स मिले");
    let s = text_hi(Msg::AppsFound);
    assert(s.subrange(1, 2) =~= "n"@);
    reveal_with_fuel(scan_placeholders, 15);
    assert(placeholders(s) =~= seq!["n"@]);
}

proof fn lemma_placeholders_ar_apps_found()
    ensures
        placeholders(text_ar(Msg::AppsFound)) == seq!["n"@],
{
    reveal_strlit("n");
    reveal_strlit("تم العثور على {n} تطبيقات");
    let s = text_ar(Msg::AppsFound);
    assert(s.subrange(15, 16) =~= "n"@);
    reveal_with_fuel(scan_placeholders, 27);
    assert(placeholders(s) =~= seq!["n"@]);
}

proof fn lemma_placeholders_pt_apps_found()
    ensures
        placeholders(text_pt(Msg::AppsFound)) == seq!["n"@],
{
    reveal_strlit("n");
    reveal_strlit("{n} aplicativos encontrados");
    let s = text_pt(Msg::AppsFound);
    assert(s.subrange(1, 2) =~= "n"@);
    reveal_with_fuel(scan_placeholders, 29);
    assert(placeholders(s) =~= seq!["n"@]);
}

proof fn lemma_placeholders_ru_apps_found()
    ensures
        placeholders(text_ru(Msg::AppsFound)) == seq!["n"@],
{
    reveal_strlit("n");
    reveal_strlit("Найдено приложений: {n}");
    let s = text_ru(Msg::AppsFound);
    assert(s.subrange(21, 22) =~= "n"@);
    reveal_with_fuel(scan_placeholders, 25);
    assert(placeholders(s) =~= seq!["n"@]);
}

proof fn lemma_placeholders_en_by_method()
    ensures
        placeholders(text_en(Msg::ByMethod)) == Seq::<Seq<char>>::empty(),
{
    reveal_strlit("By installation method");
    let s = text_en(Msg::ByMethod);
    reveal_with_fuel(scan_placeholders, 24);
    assert(placeholders(s) =~= Seq::<Seq<char>>::empty());
}

proof fn lemma_placeholders_zh_by_method()
    ensures
        placeholders(text_zh(Msg::ByMethod)) == Seq::<Seq<char>>::empty(),
{
    reveal_strlit("按安装方式");
    let s = text_zh(Msg::ByMethod);
    reveal_with_fuel(scan_placeholders, 7);
    assert(placeholders(s) =~= Seq::<Seq<char>>::empty());
}

proof fn lemma_placeholders_es_by_method()
    ensures
        placeholders(text_es(Msg::ByMethod)) == Seq::<Seq<char>>::empty(),
{
    reveal_strlit("Por método de instalación");
    let s = text_es(Msg::ByMethod);
    reveal_with_fuel(scan_placeholders, 27);
    assert(placeholders(s) =~= Seq::<Seq<char>>::empty());
}

proof fn lemma_placeholders_hi_by_method()
    ensures
        placeholders(text_hi(Msg::ByMethod)) == Seq::<Seq<char>>::empty(),
{
    reveal_strlit("इंस्टॉल विधि के अनुसार");
    let s = text_hi(Msg::ByMethod);
    reveal_with_fuel(scan_placeholders, 24);
    assert(placeholders(s) =~= Seq::<Seq<char>>::empty());
}

proof fn lemma_placeholders_ar_by_method()
    ensures
        placeholders(text_ar(Msg::ByMethod)) == Seq::<Seq<char>>::empty(),
{
    reveal_strlit("حسب طريقة التثبيت");
    let s = text_ar(Msg::ByMethod);
    reveal_with_fuel(scan_placeholders, 19);
    assert(placeholders(s) =~= Seq::<Seq<char>>::empty());
}

proof fn lemma_placeholders_pt_by_method()
    ensures
        placeholders(text_pt(Msg::ByMethod)) == Seq::<Seq<char>>::empty(),
{
    reveal_strlit("Por método de instalação");
    let s = text_pt(Msg::ByMethod);
    reveal_with_fuel(scan_placeholders, 26);
    assert(placeholders(s) =~= Seq::<Seq<char>>::empty());
}

proof fn lemma_placeholders_ru_by_method()
    ensures
        placeholders(text_ru(Msg::ByMethod)) == Seq::<Seq<char>>::empty(),
{
    reveal_strlit("По способу установки");
    let s = text_ru(Msg::ByMethod);
    reveal_with_fuel(scan_placeholders, 22);
    assert(placeholders(s) =~= Seq::<Seq<char>>::empty());
}

proof fn lemma_placeholders_en_space_used()
    ensures
        placeholders(text_en(Msg::SpaceUsed)) == Seq::<Seq<char>>::empty(),
{
    reveal_strlit("Space used by apps");
    let s = text_en(Msg::SpaceUsed);
    reveal_with_fuel(scan_placeholders, 20);
    assert(placeholders(s) =~= Seq::<Seq<char>>::empty());
}

proof fn lemma_placeholders_zh_space_used()
    ensures
        placeholders(text_zh(Msg::SpaceUsed)) == Seq::<Seq<char>>::empty(),
{
    reveal_strlit("应用占用空间");
    let s = text_zh(Msg::SpaceUsed);
    reveal_with_fuel(scan_placeholders, 8);
    assert(placeholders(s) =~= Seq::<Seq<char>>::empty());
}

proof fn lemma_placeholders_es_space_used()
    ensures
        placeholders(text_es(Msg::SpaceUsed)) == Seq::<Seq<char>>::empty(),
{
    reveal_strlit("Espacio usado por apps");
    let s = text_es(Msg::SpaceUsed);
    reveal_with_fuel(scan_placeholders, 24);
    assert(placeholders(s) =~= Seq::<Seq<char>>::empty());
}

proof fn lemma_placeholders_hi_space_used()
    ensures
        placeholders(text_hi(Msg::SpaceUsed)) == Seq::<Seq<char>>::empty(),
{
    reveal_strlit("ऐप्स द्वारा उपयोग स्थान");
    let s = text_hi(Msg::SpaceUsed);
    reveal_with_fuel(scan_placeholders, 25);
    assert(placeholders(s) =~= Seq::<Seq<char>>::empty());
}

proof fn lemma_placeholders_ar_space_used()
    ensures
        placeholders(text_ar(Msg::SpaceUsed)) == Seq::<Seq<char>>::empty(),
{
    reveal_strlit("المساحة المستخدمة للتطبيقات");
    let s = text_ar(Msg::SpaceUsed);
    reveal_with_fuel(scan_placeholders, 29);
    assert(placeholders(s) =~= Seq::<Seq<char>>::empty());
}

proof fn lemma_placeholders_pt_space_used()
    ensures
        placeholders(text_pt(Msg::SpaceUsed)) == Seq::<Seq<char>>::empty(),
{
    reveal_strlit("Espaço utilizado por aplicativos");
    let s = text_pt(Msg::SpaceUsed);
    reveal_with_fuel(scan_placeholders, 34);
    assert(placeholders(s) =~= Seq::<Seq<char>>::empty());
}

proof fn lemma_placeholders_ru_space_used()
    ensures
        placeholders(text_ru(Msg::SpaceUsed)) == Seq::<Seq<char>>::empty(),
{
    reveal_strlit("Место, занятое приложениями");
    let s = text_ru(Msg::SpaceUsed);
    reveal_with_fuel(scan_placeholders, 29);
    assert(placeholders(s) =~= Seq::<Seq<char>>::empty());
}

proof fn lemma_placeholders_en_search_placeholder()
    ensures
        placeholders(text_en(Msg::SearchPlaceholder)) == Seq::<Seq<char>>::empty(),
{
    reveal_strlit("Search apps...");
    let s = text_en(Msg::SearchPlaceholder);
    reveal_with_fuel(scan_placeholders, 16);
    assert(placeholders(s) =~= Seq::<Seq<char>>::empty());
}

proof fn lemma_placeholders_zh_search_placeholder()
    ensures
        placeholders(text_zh(Msg::SearchPlaceholder)) == Seq::<Seq<char>>::empty(),
{
    reveal_strlit("搜索应用...");
    let s = text_zh(Msg::SearchPlaceholder);
    reveal_with_fuel(scan_placeholders, 9);
    assert(placeholders(s) =~= Seq::<Seq<char>>::empty());
}

proof fn lemma_placeholders_es_search_placeholder()
    ensures
        placeholders(text_es(Msg::SearchPlaceholder)) == Seq::<Seq<char>>::empty(),
{
    reveal_strlit("Buscar aplicaciones...");
    let s = text_es(Msg::SearchPlaceholder);
    reveal_with_fuel(scan_placeholders, 24);
    assert(placeholders(s) =~= Seq::<Seq<char>>::empty());
}

proof fn lemma_placeholders_hi_search_placeholder()
    ensures
        placeholders(text_hi(Msg::SearchPlaceholder)) == Seq::<Seq<char>>::empty(),
{
    reveal_strlit("ऐप्स खोजें...");
    let s = text_hi(Msg::SearchPlaceholder);
    reveal_with_fuel(scan_placeholders, 15);
    assert(placeholders(s) =~= Seq::<Seq<char>>::empty());
}

proof fn lemma_placeholders_ar_search_placeholder()
    ensures
        placeholders(text_ar(Msg::SearchPlaceholder)) == Seq::<Seq<char>>::empty(),
{
    reveal_strlit("البحث عن تطبيقات...");
    let s = text_ar(Msg::SearchPlaceholder);
    reveal_with_fuel(scan_placeholders, 21);
    assert(placeholders(s) =~= Seq::<Seq<char>>::empty());
}

proof fn lemma_placeholders_pt_search_placeholder()
    ensures
        placeholders(text_pt(Msg::SearchPlaceholder)) == Seq::<Seq<char>>::empty(),
{
    reveal_strlit("Pesquisar aplicativos...");
    let s = text_pt(Msg::SearchPlaceholder);
    reveal_with_fuel(scan_placeholders, 26);
    assert(placeholders(s) =~= Seq::<Seq<char>>::empty());
}

proof fn lemma_placeholders_ru_search_placeholder()
    ensures
        placeholders(text_ru(Msg::SearchPlaceholder)) == Seq::<Seq<char>>::empty(),
{
    reveal_strlit("Поиск приложений...");
    let s = text_ru(Msg::SearchPlaceholder);
    reveal_with_fuel(scan_placeholders, 21);
    assert(placeholders(s) =~= Seq::<Seq<char>>::empty());
}

proof fn lemma_placeholders_en_sort()
    ensures
        placeholders(text_en(Msg::Sort)) == Seq::<Seq<char>>::empty(),
{
    reveal_strlit("Sort:");
    let s = text_en(Msg::Sort);
    reveal_with_fuel(scan_placeholders, 7);
    assert(placeholders(s) =~= Seq::<Seq<char>>::empty());
}

proof fn lemma_placeholders_zh_sort()
    ensures
        placeholders(text_zh(Msg::Sort)) == Seq::<Seq<char>>::empty(),
{
    reveal_strlit("排序：");
    let s = text_zh(Msg::Sort);
    reveal_with_fuel(scan_placeholders, 5);
    assert(placeholders(s) =~= Seq::<Seq<char>>::empty());
}

proof fn lemma_placeholders_es_sort()
    ensures
        placeholders(text_es(Msg::Sort)) == Seq::<Seq<char>>::empty(),
{
    reveal_strlit("Ordenar:");
    let s = text_es(Msg::Sort);
    reveal_with_fuel(scan_placeholders, 10);
    assert(placeholders(s) =~= Seq::<Seq<char>>::empty());
}

proof fn lemma_placeholders_hi_sort()
    ensures
        placeholders(text_hi(Msg::Sort)) == Seq::<Seq<char>>::empty(),
{
    reveal_strlit("क्रमबद्ध करें:");
    let s = text_hi(Msg::Sort);
    reveal_with_fuel(scan_placeholders, 16);
    assert(placeholders(s) =~= Seq::<Seq<char>>::empty());
}

proof fn lemma_placeholders_ar_sort()
    ensures
        placeholders(text_ar(Msg::Sort)) == Seq::<Seq<char>>::empty(),
{
    reveal_strlit("ترتيب:");
    let s = text_ar(Msg::Sort);
    reveal_with_fuel(scan_placeholders, 8);
    assert(placeholders(s) =~= Seq::<Seq<char>>::empty());
}

proof fn lemma_placeholders_pt_sort()
    ensures
        placeholders(text_pt(Msg::Sort)) == Seq::<Seq<char>>::empty(),
{
    reveal_strlit("Ordenar:");
    let s = text_pt(Msg::Sort);
    reveal_with_fuel(scan_placeholders, 10);
    assert(placeholders(s) =~= Seq::<Seq<char>>::empty());
}

proof fn lemma_placeholders_ru_sort()
    ensures
        placeholders(text_ru(Msg::Sort)) == Seq::<Seq<char>>::empty(),
{
    reveal_strlit("Сортировка:");
    let s = text_ru(Msg::Sort);
    reveal_with_fuel(scan_placeholders, 13);
    assert(placeholders(s) =~= Seq::<Seq<char>>::empty());
}

proof fn lemma_placeholders_en_sort_name()
    ensures
        placeholders(text_en(Msg::SortName)) == Seq::<Seq<char>>::empty(),
{
    reveal_strlit("Name");
    let s = text_en(Msg::SortName);
    reveal_with_fuel(scan_placeholders, 6);
    assert(placeholders(s) =~= Seq::<Seq<char>>::empty());
}

proof fn lemma_placeholders_zh_sort_name()
    ensures
        placeholders(text_zh(Msg::SortName)) == Seq::<Seq<char>>::empty(),
{
    reveal_strlit("名称");
    let s = text_zh(Msg::SortName);
    reveal_with_fuel(scan_placeholders, 4);
    assert(placeholders(s) =~= Seq::<Seq<char>>::empty());
}

proof fn lemma_placeholders_es_sort_name()
    ensures
        placeholders(text_es(Msg::SortName)) == Seq::<Seq<char>>::empty(),
{
    reveal_strlit("Nombre");
    let s = text_es(Msg::SortName);
    reveal_with_fuel(scan_placeholders, 8);
    assert(placeholders(s) =~= Seq::<Seq<char>>::empty());
}

proof fn lemma_placeholders_hi_sort_name()
    ensures
        placeholders(text_hi(Msg::SortName)) == Seq::<Seq<char>>::empty(),
{
    reveal_strlit("नाम");
    let s = text_hi(Msg::SortName);
    reveal_with_fuel(scan_placeholders, 5);
    assert(placeholders(s) =~= Seq::<Seq<char>>::empty());
}

proof fn lemma_placeholders_ar_sort_name()
    ensures
        placeholders(text_ar(Msg::SortName)) == Seq::<Seq<char>>::empty(),
{
    reveal_strlit("الاسم");
    let s = text_ar(Msg::SortName);
    reveal_with_fuel(scan_placeholders, 7);
    assert(placeholders(s) =~= Seq::<Seq<char>>::empty());
}

proof fn lemma_placeholders_pt_sort_name()
    ensures
        placeholders(text_pt(Msg::SortName)) == Seq::<Seq<char>>::empty(),
{
    reveal_strlit("Nome");
    let s = text_pt(Msg::SortName);
    reveal_with_fuel(scan_placeholders, 6);
    assert(placeholders(s) =~= Seq::<Seq<char>>::empty());
}

proof fn lemma_placeholders_ru_sort_name()
    ensures
        placeholders(text_ru(Msg::SortName)) == Seq::<Seq<char>>::empty(),
{
    reveal_strlit("Имя");
    let s = text_ru(Msg::SortName);
    reveal_with_fuel(scan_placeholders, 5);
    assert(placeholders(s) =~= Seq::<Seq<char>>::empty());
}

proof fn lemma_placeholders_en_sort_size()
    ensures
        placeholders(text_en(Msg::SortSize)) == Seq::<Seq<char>>::empty(),
{
    reveal_strlit("Size");
    let s = text_en(Msg::SortSize);
    reveal_with_fuel(scan_placeholders, 6);
    assert(placeholders(s) =~= Seq::<Seq<char>>::empty());
}

proof fn lemma_placeholders_zh_sort_size()
    ensures
        placeholders(text_zh(Msg::SortSize)) == Seq::<Seq<char>>::empty(),
{
    reveal_strlit("大小");
    let s = text_zh(Msg::SortSize);
    reveal_with_fuel(scan_placeholders, 4);
    assert(placeholders(s) =~= Seq::<Seq<char>>::empty());
}

proof fn lemma_placeholders_es_sort_size()
    ensures
        placeholders(text_es(Msg::SortSize)) == Seq::<Seq<char>>::empty(),
{
    reveal_strlit("Tamaño");
    let s = text_es(Msg::SortSize);
    reveal_with_fuel(scan_placeholders, 8);
    assert(placeholders(s) =~= Seq::<Seq<char>>::empty());
}

proof fn lemma_placeholders_hi_sort_size()
    ensures
        placeholders(text_hi(Msg::SortSize)) == Seq::<Seq<char>>::empty(),
{
    reveal_strlit("आकार");
    let s = text_hi(Msg::SortSize);
    reveal_with_fuel(scan_placeholders, 6);
    assert(placeholders(s) =~= Seq::<Seq<char>>::empty());
}

proof fn lemma_placeholders_ar_sort_size()
    ensures
        placeholders(text_ar(Msg::SortSize)) == Seq::<Seq<char>>::empty(),
{
    reveal_strlit("الحجم");
    let s = text_ar(Msg::SortSize);
    reveal_with_fuel(scan_placeholders, 7);
    assert(placeholders(s) =~= Seq::<Seq<char>>::empty());
}

proof fn lemma_placeholders_pt_sort_size()
    ensures
        placeholders(text_pt(Msg::SortSize)) == Seq::<Seq<char>>::empty(),
{
    reveal_strlit("Tamanho");
    let s = text_pt(Msg::SortSize);
    reveal_with_fuel(scan_placeholders, 9);
    assert(placeholders(s) =~= Seq::<Seq<char>>::empty());
}

proof fn lemma_placeholders_ru_sort_size()
    ensures
        placeholders(text_ru(Msg::SortSize)) == Seq::<Seq<char>>::empty(),
{
    reveal_strlit("Размер");
    let s = text_ru(Msg::SortSize);
    reveal_with_fuel(scan_placeholders, 8);
    assert(placeholders(s) =~= Seq::<Seq<char>>::empty());
}

proof fn lemma_placeholders_en_sort_date()
    ensures
        placeholders(text_en(Msg::SortDate)) == Seq::<Seq<char>>::empty(),
{
    reveal_strlit("Install date");
    let s = text_en(Msg::SortDate);
    reveal_with_fuel(scan_placeholders, 14);
    assert(placeholders(s) =~= Seq::<Seq<char>>::empty());
}

proof fn lemma_placeholders_zh_sort_date()
    ensures
        placeholders(text_zh(Msg::SortDate)) == Seq::<Seq<char>>::empty(),
{
    reveal_strlit("安装日期");
    let s = text_zh(Msg::SortDate);
    reveal_with_fuel(scan_placeholders, 6);
    assert(placeholders(s) =~= Seq::<Seq<char>>::empty());
}

proof fn lemma_placeholders_es_sort_date()
    ensures
        placeholders(text_es(Msg::SortDate)) == Seq::<Seq<char>>::empty(),
{
    reveal_strlit("Fecha de instalación");
    let s = text_es(Msg::SortDate);
    reveal_with_fuel(scan_placeholders, 22);
    assert(placeholders(s) =~= Seq::<Seq<char>>::empty());
}

proof fn lemma_placeholders_hi_sort_date()
    ensures
        placeholders(text_hi(Msg::SortDate)) == Seq::<Seq<char>>::empty(),
{
    reveal_strlit("इंस्टॉल तिथि");
    let s = text_hi(Msg::SortDate);
    reveal_with_fuel(scan_placeholders, 14);
    assert(placeholders(s) =~= Seq::<Seq<char>>::empty());
}

proof fn lemma_placeholders_ar_sort_date()
    ensures
        placeholders(text_ar(Msg::SortDate)) == Seq::<Seq<char>>::empty(),
{
    reveal_strlit("تاريخ التثبيت");
    let s = text_ar(Msg::SortDate);
    reveal_with_fuel(scan_placeholders, 15);
    assert(placeholders(s) =~= Seq::<Seq<char>>::empty());
}

proof fn lemma_placeholders_pt_sort_date()
    ensures
        placeholders(text_pt(Msg::SortDate)) == Seq::<Seq<char>>::empty(),
{
    reveal_strlit("Data de instalação");
    let s = text_pt(Msg::SortDate);
    reveal_with_fuel(scan_placeholders, 20);
    assert(placeholders(s) =~= Seq::<Seq<char>>::empty());
}

proof fn lemma_placeholders_ru_sort_date()
    ensures
        placeholders(text_ru(Msg::SortDate)) == Seq::<Seq<char>>::empty(),
{
    reveal_strlit("Дата установки");
    let s = text_ru(Msg::SortDate);
    reveal_with_fuel(scan_placeholders, 16);
    assert(placeholders(s) =~= Seq::<Seq<char>>::empty());
}

proof fn lemma_placeholders_en_sort_method()
    ensures
        placeholders(text_en(Msg::SortMethod)) == Seq::<Seq<char>>::empty(),
{
    reveal_strlit("Method");
    let s = text_en(Msg::SortMethod);
    reveal_with_fuel(scan_placeholders, 8);
    assert(placeholders(s) =~= Seq::<Seq<char>>::empty());
}

proof fn lemma_placeholders_zh_sort_method()
    ensures
        placeholders(text_zh(Msg::SortMethod)) == Seq::<Seq<char>>::empty(),
{
    reveal_strlit("方式");
    let s = text_zh(Msg::SortMethod);
    reveal_with_fuel(scan_placeholders, 4);
    assert(placeholders(s) =~= Seq::<Seq<char>>::empty());
}

proof fn lemma_placeholders_es_sort_method()
    ensures
        placeholders(text_es(Msg::SortMethod)) == Seq::<Seq<char>>::empty(),
{
    reveal_strlit("Método");
    let s = text_es(Msg::SortMethod);
    reveal_with_fuel(scan_placeholders, 8);
    assert(placeholders(s) =~= Seq::<Seq<char>>::empty());
}

proof fn lemma_placeholders_hi_sort_method()
    ensures
        placeholders(text_hi(Msg::SortMethod)) == Seq::<Seq<char>>::empty(),
{
    reveal_strlit("विधि");
    let s = text_hi(Msg::SortMethod);
    reveal_with_fuel(scan_placeholders, 6);
    assert(placeholders(s) =~= Seq::<Seq<char>>::empty());
}

proof fn lemma_placeholders_ar_sort_method()
    ensures
        placeholders(text_ar(Msg::SortMethod)) == Seq::<Seq<char>>::empty(),
{
    reveal_strlit("الطريقة");
    let s = text_ar(Msg::SortMethod);
    reveal_with_fuel(scan_placeholders, 9);
    assert(placeholders(s) =~= Seq::<Seq<char>>::empty());
}

proof fn lemma_placeholders_pt_sort_method()
    ensures
        placeholders(text_pt(Msg::SortMethod)) == Seq::<Seq<char>>::empty(),
{
    reveal_strlit("Método");
    let s = text_pt(Msg::SortMethod);
    reveal_with_fuel(scan_placeholders, 8);
    assert(placeholders(s) =~= Seq::<Seq<char>>::empty());
}

proof fn lemma_placeholders_ru_sort_method()
    ensures
        placeholders(text_ru(Msg::SortMethod)) == Seq::<Seq<char>>::empty(),
{
    reveal_strlit("Способ");
    let s = text_ru(Msg::SortMethod);
    reveal_with_fuel(scan_placeholders, 8);
    assert(placeholders(s) =~= Seq::<Seq<char>>::empty());
}

proof fn lemma_placeholders_en_sort_update()
    ensures
        placeholders(text_en(Msg::SortUpdate)) == Seq::<Seq<char>>::empty(),
{
    reveal_strlit("Update available");
    let s = text_en(Msg::SortUpdate);
    reveal_with_fuel(scan_placeholders, 18);
    assert(placeholders(s) =~= Seq::<Seq<char>>::empty());
}

proof fn lemma_placeholders_zh_sort_update()
    ensures
        placeholders(text_zh(Msg::SortUpdate)) == Seq::<Seq<char>>::empty(),
{
    reveal_strlit("有可用更新");
    let s = text_zh(Msg::SortUpdate);
    reveal_with_fuel(scan_placeholders, 7);
    assert(placeholders(s) =~= Seq::<Seq<char>>::empty());
}

proof fn lemma_placeholders_es_sort_update()
    ensures
        placeholders(text_es(Msg::SortUpdate)) == Seq::<Seq<char>>::empty(),
{
    reveal_strlit("Actualización disponible");
    let s = text_es(Msg::SortUpdate);
    reveal_with_fuel(scan_placeholders, 26);
    assert(placeholders(s) =~= Seq::<Seq<char>>::empty());
}

proof fn lemma_placeholders_hi_sort_update()
    ensures
        placeholders(text_hi(Msg::SortUpdate)) == Seq::<Seq<char>>::empty(),
{
    reveal_strlit("अपडेट उपलब्ध");
    let s = text_hi(Msg::SortUpdate);
    reveal_with_fuel(scan_placeholders, 14);
    assert(placeholders(s) =~= Seq::<Seq<char>>::empty());
}

proof fn lemma_placeholders_ar_sort_update()
    ensures
        placeholders(text_ar(Msg::SortUpdate)) == Seq::<Seq<char>>::empty(),
{
    reveal_strlit("يتوفر تحديث");
    let s = text_ar(Msg::SortUpdate);
    reveal_with_fuel(scan_placeholders, 13);
    assert(placeholders(s) =~= Seq::<Seq<char>>::empty());
}

proof fn lemma_placeholders_pt_sort_update()
    ensures
        placeholders(text_pt(Msg::SortUpdate)) == Seq::<Seq<char>>::empty(),
{
    reveal_strlit("Atualização disponível");
    let s = text_pt(Msg::SortUpdate);
    reveal_with_fuel(scan_placeholders, 24);
    assert(placeholders(s) =~= Seq::<Seq<char>>::empty());
}

proof fn lemma_placeholders_ru_sort_update()
    ensures
        placeholders(text_ru(Msg::SortUpdate)) == Seq::<Seq<char>>::empty(),
{
    reveal_strlit("Доступно обновление");
    let s = text_ru(Msg::SortUpdate);
    reveal_with_fuel(scan_placeholders, 21);
    assert(placeholders(s) =~= Seq::<Seq<char>>::empty());
}

proof fn lemma_placeholders_en_no_apps()
    ensures
        placeholders(text_en(Msg::NoApps)) == Seq::<Seq<char>>::empty(),
{
    reveal_strlit("No apps");
    let s = text_en(Msg::NoApps);
    reveal_with_fuel(scan_placeholders, 9);
    assert(placeholders(s) =~= Seq::<Seq<char>>::empty());
}

proof fn lemma_placeholders_zh_no_apps()
    ensures
        placeholders(text_zh(Msg::NoApps)) == Seq::<Seq<char>>::empty(),
{
    reveal_strlit("没有应用");
    let s = text_zh(Msg::NoApps);
    reveal_with_fuel(scan_placeholders, 6);
    assert(placeholders(s) =~= Seq::<Seq<char>>::empty());
}

proof fn lemma_placeholders_es_no_apps()
    ensures
        placeholders(text_es(Msg::NoApps)) == Seq::<Seq<char>>::empty(),
{
    reveal_strlit("Sin aplicaciones");
    let s = text_es(Msg::NoApps);
    reveal_with_fuel(scan_placeholders, 18);
    assert(placeholders(s) =~= Seq::<Seq<char>>::empty());
}

proof fn lemma_placeholders_hi_no_apps()
    ensures
        placeholders(text_hi(Msg::NoApps)) == Seq::<Seq<char>>::empty(),
{
    reveal_strlit("कोई ऐप नहीं");
    let s = text_hi(Msg::NoApps);
    reveal_with_fuel(scan_placeholders, 13);
    assert(placeholders(s) =~= Seq::<Seq<char>>::empty());
}

proof fn lemma_placeholders_ar_no_apps()
    ensures
        placeholders(text_ar(Msg::NoApps)) == Seq::<Seq<char>>::empty(),
{
    reveal_strlit("لا توجد تطبيقات");
    let s = text_ar(Msg::NoApps);
    reveal_with_fuel(scan_placeholders, 17);
    assert(placeholders(s) =~= Seq::<Seq<char>>::empty());
}

proof fn lemma_placeholders_pt_no_apps()
    ensures
        placeholders(text_pt(Msg::NoApps)) == Seq::<Seq<char>>::empty(),
{
    reveal_strlit("Nenhum aplicativo");
    let s = text_pt(Msg::NoApps);
    reveal_with_fuel(scan_placeholders, 19);
    assert(placeholders(s) =~= Seq::<Seq<char>>::empty());
}

proof fn lemma_placeholders_ru_no_apps()
    ensures
        placeholders(text_ru(Msg::NoApps)) == Seq::<Seq<char>>::empty(),
{
    reveal_strlit("Нет приложений");
    let s = text_ru(Msg::NoApps);
    reveal_with_fuel(scan_placeholders, 16);
    assert(placeholders(s) =~= Seq::<Seq<char>>::empty());
}

proof fn lemma_placeholders_en_no_apps_method()
    ensures
        placeholders(text_en(Msg::NoAppsMethod)) == seq!["method"@],
{
    reveal_strlit("method");
    reveal_strlit("No {method} apps");
    let s = text_en(Msg::NoAppsMethod);
    assert(s.subrange(4, 10) =~= "method"@);
    reveal_with_fuel(scan_placeholders, 18);
    assert(placeholders(s) =~= seq!["method"@]);
}

proof fn lemma_placeholders_zh_no_apps_method()
    ensures
        placeholders(text_zh(Msg::NoAppsMethod)) == seq!["method"@],
{
    reveal_strlit("method");
    reveal_strlit("没有 {method} 应用");
    let s = text_zh(Msg::NoAppsMethod);
    assert(s.subrange(4, 10) =~= "method"@);
    reveal_with_fuel(scan_placeholders, 16);
    assert(placeholders(s) =~= seq!["method"@]);
}

proof fn lemma_placeholders_es_no_apps_method()
    ensures
        placeholders(text_es(Msg::NoAppsMethod)) == seq!["method"@],
{
    reveal_strlit("method");
    reveal_strlit("Sin apps {method}");
    let s = text_es(Msg::NoAppsMethod);
    assert(s.subrange(10, 16) =~= "method"@);
    reveal_with_fuel(scan_placeholders, 19);
    assert(placeholders(s) =~= seq!["method"@]);
}

proof fn lemma_placeholders_hi_no_apps_method()
    ensures
        placeholders(text_hi(Msg::NoAppsMethod)) == seq!["method"@],
{
    reveal_strlit("method");
    reveal_strlit("कोई {method} ऐप नहीं");
    let s = text_hi(Msg::NoAppsMethod);
    assert(s.subrange(5, 11) =~= "method"@);
    reveal_with_fuel(scan_placeholders, 22);
    assert(placeholders(s) =~= seq!["method"@]);
}

proof fn lemma_placeholders_ar_no_apps_method()
    ensures
        placeholders(text_ar(Msg::NoAppsMethod)) == seq!["method"@],
{
    reveal_strlit("method");
    reveal_strlit("لا توجد تطبيقات {method}");
    let s = text_ar(Msg::NoAppsMethod);
    assert(s.subrange(17, 23) =~= "method"@);
    reveal_with_fuel(scan_placeholders, 26);
    assert(placeholders(s) =~= seq!["method"@]);
}

proof fn lemma_placeholders_pt_no_apps_method()
    ensures
        placeholders(text_pt(Msg::NoAppsMethod)) == seq!["method"@],
{
    reveal_strlit("method");
    reveal_strlit("Nenhum aplicativo {method}");
    let s = text_pt(Msg::NoAppsMethod);
    assert(s.subrange(19, 25) =~= "method"@);
    reveal_with_fuel(scan_placeholders, 28);
    assert(placeholders(s) =~= seq!["method"@]);
}

proof fn lemma_placeholders_ru_no_apps_method()
    ensures
        placeholders(text_ru(Msg::NoAppsMethod)) == seq!["method"@],
{
    reveal_strlit("method");
    reveal_strlit("Нет приложений {method}");
    let s = text_ru(Msg::NoAppsMethod);
    assert(s.subrange(16, 22) =~= "method"@);
    reveal_with_fuel(scan_placeholders, 25);
    assert(placeholders(s) =~= seq!["method"@]);
}

proof fn lemma_placeholders_en_no_apps_filter()
    ensures
        placeholders(text_en(Msg::NoAppsFilter)) == Seq::<Seq<char>>::empty(),
{
    reveal_strlit("No apps for this installation method.");
    let s = text_en(Msg::NoAppsFilter);
    reveal_with_fuel(scan_placeholders, 39);
    assert(placeholders(s) =~= Seq::<Seq<char>>::empty());
}

proof fn lemma_placeholders_zh_no_apps_filter()
    ensures
        placeholders(text_zh(Msg::NoAppsFilter)) == Seq::<Seq<char>>::empty(),
{
    reveal_strlit("此安装方式下没有应用。");
    let s = text_zh(Msg::NoAppsFilter);
    reveal_with_fuel(scan_placeholders, 13);
    assert(placeholders(s) =~= Seq::<Seq<char>>::empty());
}

proof fn lemma_placeholders_es_no_apps_filter()
    ensures
        placeholders(text_es(Msg::NoAppsFilter)) == Seq::<Seq<char>>::empty(),
{
    reveal_strlit("No hay apps con este método de instalación.");
    let s = text_es(Msg::NoAppsFilter);
    reveal_with_fuel(scan_placeholders, 45);
    assert(placeholders(s) =~= Seq::<Seq<char>>::empty());
}

proof fn lemma_placeholders_hi_no_apps_filter()
    ensures
        placeholders(text_hi(Msg::NoAppsFilter)) == Seq::<Seq<char>>::empty(),
{
    reveal_strlit("इस इंस्टॉल विधि में कोई ऐप नहीं है।");
    let s = text_hi(Msg::NoAppsFilter);
    reveal_with_fuel(scan_placeholders, 37);
    assert(placeholders(s) =~= Seq::<Seq<char>>::empty());
}

proof fn lemma_placeholders_ar_no_apps_filter()
    ensures
        placeholders(text_ar(Msg::NoAppsFilter)) == Seq::<Seq<char>>::empty(),
{
    reveal_strlit("لا توجد تطبيقات لهذه الطريقة.");
    let s = text_ar(Msg::NoAppsFilter);
    reveal_with_fuel(scan_placeholders, 31);
    assert(placeholders(s) =~= Seq::<Seq<char>>::empty());
}

proof fn lemma_placeholders_pt_no_apps_filter()
    ensures
        placeholders(text_pt(Msg::NoAppsFilter)) == Seq::<Seq<char>>::empty(),
{
    reveal_strlit("Não há aplicativos neste método de instalação.");
    let s = text_pt(Msg::NoAppsFilter);
    reveal_with_fuel(scan_placeholders, 48);
    assert(placeholders(s) =~= Seq::<Seq<char>>::empty());
}

proof fn lemma_placeholders_ru_no_apps_filter()
    ensures
        placeholders(text_ru(Msg::NoAppsFilter)) == Seq::<Seq<char>>::empty(),
{
    reveal_strlit("Нет приложений с этим способом установки.");
    let s = text_ru(Msg::NoAppsFilter);
    reveal_with_fuel(scan_placeholders, 43);
    assert(placeholders(s) =~= Seq::<Seq<char>>::empty());
}

proof fn lemma_placeholders_en_no_apps_search()
    ensures
        placeholders(text_en(Msg::NoAppsSearch)) == Seq::<Seq<char>>::empty(),
{
    reveal_strlit("No results for the current search.");
    let s = text_en(Msg::NoAppsSearch);
    reveal_with_fuel(scan_placeholders, 36);
    assert(placeholders(s) =~= Seq::<Seq<char>>::empty());
}

proof fn lemma_placeholders_zh_no_apps_search()
    ensures
        placeholders(text_zh(Msg::NoAppsSearch)) == Seq::<Seq<char>>::empty(),
{
    reveal_strlit("当前搜索没有结果。");
    let s = text_zh(Msg::NoAppsSearch);
    reveal_with_fuel(scan_placeholders, 11);
    assert(placeholders(s) =~= Seq::<Seq<char>>::empty());
}

proof fn lemma_placeholders_es_no_apps_search()
    ensures
        placeholders(text_es(Msg::NoAppsSearch)) == Seq::<Seq<char>>::empty(),
{
    reveal_strlit("Sin resultados para la búsqueda actual.");
    let s = text_es(Msg::NoAppsSearch);
    reveal_with_fuel(scan_placeholders, 41);
    assert(placeholders(s) =~= Seq::<Seq<char>>::empty());
}

proof fn lemma_placeholders_hi_no_apps_search()
    ensures
        placeholders(text_hi(Msg::NoAppsSearch)) == Seq::<Seq<char>>::empty(),
{
    reveal_strlit("वर्तमान खोज के लिए कोई परिणाम नहीं।");
    let s = text_hi(Msg::NoAppsSearch);
    reveal_with_fuel(scan_placeholders, 37);
    assert(placeholders(s) =~= Seq::<Seq<char>>::empty());
}

proof fn lemma_placeholders_ar_no_apps_search()
    ensures
        placeholders(text_ar(Msg::NoAppsSearch)) == Seq::<Seq<char>>::empty(),
{
    reveal_strlit("لا نتائج للبحث الحالي.");
    let s = text_ar(Msg::NoAppsSearch);
    reveal_with_fuel(scan_placeholders, 24);
    assert(placeholders(s) =~= Seq::<Seq<char>>::empty());
}

proof fn lemma_placeholders_pt_no_apps_search()
    ensures
        placeholders(text_pt(Msg::NoAppsSearch)) == Seq::<Seq<char>>::empty(),
{
    reveal_strlit("Nenhum resultado para a pesquisa atual.");
    let s = text_pt(Msg::NoAppsSearch);
    reveal_with_fuel(scan_placeholders, 41);
    assert(placeholders(s) =~= Seq::<Seq<char>>::empty());
}

proof fn lemma_placeholders_ru_no_apps_search()
    ensures
        placeholders(text_ru(Msg::NoAppsSearch)) == Seq::<Seq<char>>::empty(),
{
    reveal_strlit("Нет результатов по текущему поиску.");
    let s = text_ru(Msg::NoAppsSearch);
    reveal_with_fuel(scan_placeholders, 37);
    assert(placeholders(s) =~= Seq::<Seq<char>>::empty());
}

proof fn lemma_placeholders_en_done()
    ensures
        placeholders(text_en(Msg::Done)) == Seq::<Seq<char>>::empty(),
{
    reveal_strlit("Done");
    let s = text_en(Msg::Done);
    reveal_with_fuel(scan_placeholders, 6);
    assert(placeholders(s) =~= Seq::<Seq<char>>::empty());
}

proof fn lemma_placeholders_zh_done()
    ensures
        placeholders(text_zh(Msg::Done)) == Seq::<Seq<char>>::empty(),
{
    reveal_strlit("完成");
    let s = text_zh(Msg::Done);
    reveal_with_fuel(scan_placeholders, 4);
    assert(placeholders(s) =~= Seq::<Seq<char>>::empty());
}

proof fn lemma_placeholders_es_done()
    ensures
        placeholders(text_es(Msg::Done)) == Seq::<Seq<char>>::empty(),
{
    reveal_strlit("Listo");
    let s = text_es(Msg::Done);
    reveal_with_fuel(scan_placeholders, 7);
    assert(placeholders(s) =~= Seq::<Seq<char>>::empty());
}

proof fn lemma_placeholders_hi_done()
    ensures
        placeholders(text_hi(Msg::Done)) == Seq::<Seq<char>>::empty(),
{
    reveal_strlit("पूर्ण");
    let s = text_hi(Msg::Done);
    reveal_with_fuel(scan_placeholders, 7);
    assert(placeholders(s) =~= Seq::<Seq<char>>::empty());
}

proof fn lemma_placeholders_ar_done()
    ensures
        placeholders(text_ar(Msg::Done)) == Seq::<Seq<char>>::empty(),
{
    reveal_strlit("تم");
    let s = text_ar(Msg::Done);
    reveal_with_fuel(scan_placeholders, 4);
    assert(placeholders(s) =~= Seq::<Seq<char>>::empty());
}

proof fn lemma_placeholders_pt_done()
    ensures
        placeholders(text_pt(Msg::Done)) == Seq::<Seq<char>>::empty(),
{
    reveal_strlit("Concluído");
    let s = text_pt(Msg::Done);
    reveal_with_fuel(scan_placeholders, 11);
    assert(placeholders(s) =~= Seq::<Seq<char>>::empty());
}

proof fn lemma_placeholders_ru_done()
    ensures
        placeholders(text_ru(Msg::Done)) == Seq::<Seq<char>>::empty(),
{
    reveal_strlit("Готово");
    let s = text_ru(Msg::Done);
    reveal_with_fuel(scan_placeholders, 8);
    assert(placeholders(s) =~= Seq::<Seq<char>>::empty());
}

proof fn lemma_placeholders_en_in_progress()
    ensures
        placeholders(text_en(Msg::InProgress)) == Seq::<Seq<char>>::empty(),
{
    reveal_strlit("In progress...");
    let s = text_en(Msg::InProgress);
    reveal_with_fuel(scan_placeholders, 16);
    assert(placeholders(s) =~= Seq::<Seq<char>>::empty());
}

proof fn lemma_placeholders_zh_in_progress()
    ensures
        placeholders(text_zh(Msg::InProgress)) == Seq::<Seq<char>>::empty(),
{
    reveal_strlit("进行中...");
    let s = text_zh(Msg::InProgress);
    reveal_with_fuel(scan_placeholders, 8);
    assert(placeholders(s) =~= Seq::<Seq<char>>::empty());
}

proof fn lemma_placeholders_es_in_progress()
    ensures
        placeholders(text_es(Msg::InProgress)) == Seq::<Seq<char>>::empty(),
{
    reveal_strlit("En curso...");
    let s = text_es(Msg::InProgress);
    reveal_with_fuel(scan_placeholders, 13);
    assert(placeholders(s) =~= Seq::<Seq<char>>::empty());
}

proof fn lemma_placeholders_hi_in_progress()
    ensures
        placeholders(text_hi(Msg::InProgress)) == Seq::<Seq<char>>::empty(),
{
    reveal_strlit("प्रगति में...");
    let s = text_hi(Msg::InProgress);
    reveal_with_fuel(scan_placeholders, 15);
    assert(placeholders(s) =~= Seq::<Seq<char>>::empty());
}

proof fn lemma_placeholders_ar_in_progress()
    ensures
        placeholders(text_ar(Msg::InProgress)) == Seq::<Seq<char>>::empty(),
{
    reveal_strlit("قيد التقدم...");
    let s = text_ar(Msg::InProgress);
    reveal_with_fuel(scan_placeholders, 15);
    assert(placeholders(s) =~= Seq::<Seq<char>>::empty());
}

proof fn lemma_placeholders_pt_in_progress()
    ensures
        placeholders(text_pt(Msg::InProgress)) == Seq::<Seq<char>>::empty(),
{
    reveal_strlit("Em andamento...");
    let s = text_pt(Msg::InProgress);
    reveal_with_fuel(scan_placeholders, 17);
    assert(placeholders(s) =~= Seq::<Seq<char>>::empty());
}

proof fn lemma_placeholders_ru_in_progress()
    ensures
        placeholders(text_ru(Msg::InProgress)) == Seq::<Seq<char>>::empty(),
{
    reveal_strlit("Выполняется...");
    let s = text_ru(Msg::InProgress);
    reveal_with_fuel(scan_placeholders, 16);
    assert(placeholders(s) =~= Seq::<Seq<char>>::empty());
}

proof fn lemma_placeholders_en_error()
    ensures
        placeholders(text_en(Msg::Error)) == Seq::<Seq<char>>::empty(),
{
    reveal_strlit("Error");
    let s = text_en(Msg::Error);
    reveal_with_fuel(scan_placeholders, 7);
    assert(placeholders(s) =~= Seq::<Seq<char>>::empty());
}

proof fn lemma_placeholders_zh_error()
    ensures
        placeholders(text_zh(Msg::Error)) == Seq::<Seq<char>>::empty(),
{
    reveal_strlit("错误");
    let s = text_zh(Msg::Error);
    reveal_with_fuel(scan_placeholders, 4);
    assert(placeholders(s) =~= Seq::<Seq<char>>::empty());
}

proof fn lemma_placeholders_es_error()
    ensures
        placeholders(text_es(Msg::Error)) == Seq::<Seq<char>>::empty(),
{
    reveal_strlit("Error");
    let s = text_es(Msg::Error);
    reveal_with_fuel(scan_placeholders, 7);
    assert(placeholders(s) =~= Seq::<Seq<char>>::empty());
}

proof fn lemma_placeholders_hi_error()
    ensures
        placeholders(text_hi(Msg::Error)) == Seq::<Seq<char>>::empty(),
{
    reveal_strlit("त्रुटि");
    let s = text_hi(Msg::Error);
    reveal_with_fuel(scan_placeholders, 8);
    assert(placeholders(s) =~= Seq::<Seq<char>>::empty());
}

proof fn lemma_placeholders_ar_error()
    ensures
        placeholders(text_ar(Msg::Error)) == Seq::<Seq<char>>::empty(),
{
    reveal_strlit("خطأ");
    let s = text_ar(Msg::Error);
    reveal_with_fuel(scan_placeholders, 5);
    assert(placeholders(s) =~= Seq::<Seq<char>>::empty());
}

proof fn lemma_placeholders_pt_error()
    ensures
        placeholders(text_pt(Msg::Error)) == Seq::<Seq<char>>::empty(),
{
    reveal_strlit("Erro");
    let s = text_pt(Msg::Error);
    reveal_with_fuel(scan_placeholders, 6);
    assert(placeholders(s) =~= Seq::<Seq<char>>::empty());
}

proof fn lemma_placeholders_ru_error()
    ensures
        placeholders(text_ru(Msg::Error)) == Seq::<Seq<char>>::empty(),
{
    reveal_strlit("Ошибка");
    let s = text_ru(Msg::Error);
    reveal_with_fuel(scan_placeholders, 8);
    assert(placeholders(s) =~= Seq::<Seq<char>>::empty());
}

proof fn lemma_placeholders_en_unavailable()
    ensures
        placeholders(text_en(Msg::Unavailable)) == Seq::<Seq<char>>::empty(),
{
    reveal_strlit("Not available");
    let s = text_en(Msg::Unavailable);
    reveal_with_fuel(scan_placeholders, 15);
    assert(placeholders(s) =~= Seq::<Seq<char>>::empty());
}

proof fn lemma_placeholders_zh_unavailable()
    ensures
        placeholders(text_zh(Msg::Unavailable)) == Seq::<Seq<char>>::empty(),
{
    reveal_strlit("不可用");
    let s = text_zh(Msg::Unavailable);
    reveal_with_fuel(scan_placeholders, 5);
    assert(placeholders(s) =~= Seq::<Seq<char>>::empty());
}

proof fn lemma_placeholders_es_unavailable()
    ensures
        placeholders(text_es(Msg::Unavailable)) == Seq::<Seq<char>>::empty(),
{
    reveal_strlit("No disponible");
    let s = text_es(Msg::Unavailable);
    reveal_with_fuel(scan_placeholders, 15);
    assert(placeholders(s) =~= Seq::<Seq<char>>::empty());
}

proof fn lemma_placeholders_hi_unavailable()
    ensures
        placeholders(text_hi(Msg::Unavailable)) == Seq::<Seq<char>>::empty(),
{
    reveal_strlit("उपलब्ध नहीं");
    let s = text_hi(Msg::Unavailable);
    reveal_with_fuel(scan_placeholders, 13);
    assert(placeholders(s) =~= Seq::<Seq<char>>::empty());
}

proof fn lemma_placeholders_ar_unavailable()
    ensures
        placeholders(text_ar(Msg::Unavailable)) == Seq::<Seq<char>>::empty(),
{
    reveal_strlit("غير متاح");
    let s = text_ar(Msg::Unavailable);
    reveal_with_fuel(scan_placeholders, 10);
    assert(placeholders(s) =~= Seq::<Seq<char>>::empty());
}

proof fn lemma_placeholders_pt_unavailable()
    ensures
        placeholders(text_pt(Msg::Unavailable)) == Seq::<Seq<char>>::empty(),
{
    reveal_strlit("Não disponível");
    let s = text_pt(Msg::Unavailable);
    reveal_with_fuel(scan_placeholders, 16);
    assert(placeholders(s) =~= Seq::<Seq<char>>::empty());
}

proof fn lemma_placeholders_ru_unavailable()
    ensures
        placeholders(text_ru(Msg::Unavailable)) == Seq::<Seq<char>>::empty(),
{
    reveal_strlit("Недоступно");
    let s = text_ru(Msg::Unavailable);
    reveal_with_fuel(scan_placeholders, 12);
    assert(placeholders(s) =~= Seq::<Seq<char>>::empty());
}

proof fn lemma_placeholders_en_pending()
    ensures
        placeholders(text_en(Msg::Pending)) == Seq::<Seq<char>>::empty(),
{
    reveal_strlit("Waiting");
    let s = text_en(Msg::Pending);
    reveal_with_fuel(scan_placeholders, 9);
    assert(placeholders(s) =~= Seq::<Seq<char>>::empty());
}

proof fn lemma_placeholders_zh_pending()
    ensures
        placeholders(text_zh(Msg::Pending)) == Seq::<Seq<char>>::empty(),
{
    reveal_strlit("等待中");
    let s = text_zh(Msg::Pending);
    reveal_with_fuel(scan_placeholders, 5);
    assert(placeholders(s) =~= Seq::<Seq<char>>::empty());
}

proof fn lemma_placeholders_es_pending()
    ensures
        placeholders(text_es(Msg::Pending)) == Seq::<Seq<char>>::empty(),
{
    reveal_strlit("Esperando");
    let s = text_es(Msg::Pending);
    reveal_with_fuel(scan_placeholders, 11);
    assert(placeholders(s) =~= Seq::<Seq<char>>::empty());
}

proof fn lemma_placeholders_hi_pending()
    ensures
        placeholders(text_hi(Msg::Pending)) == Seq::<Seq<char>>::empty(),
{
    reveal_strlit("प्रतीक्षा");
    let s = text_hi(Msg::Pending);
    reveal_with_fuel(scan_placeholders, 11);
    assert(placeholders(s) =~= Seq::<Seq<char>>::empty());
}

proof fn lemma_placeholders_ar_pending()
    ensures
        placeholders(text_ar(Msg::Pending)) == Seq::<Seq<char>>::empty(),
{
    reveal_strlit("في الانتظار");
    let s = text_ar(Msg::Pending);
    reveal_with_fuel(scan_placeholders, 13);
    assert(placeholders(s) =~= Seq::<Seq<char>>::empty());
}

proof fn lemma_placeholders_pt_pending()
    ensures
        placeholders(text_pt(Msg::Pending)) == Seq::<Seq<char>>::empty(),
{
    reveal_strlit("Aguardando");
    let s = text_pt(Msg::Pending);
    reveal_with_fuel(scan_placeholders, 12);
    assert(placeholders(s) =~= Seq::<Seq<char>>::empty());
}

proof fn lemma_placeholders_ru_pending()
    ensures
        placeholders(text_ru(Msg::Pending)) == Seq::<Seq<char>>::empty(),
{
    reveal_strlit("Ожидание");
    let s = text_ru(Msg::Pending);
    reveal_with_fuel(scan_placeholders, 10);
    assert(placeholders(s) =~= Seq::<Seq<char>>::empty());
}

proof fn lemma_placeholders_en_details()
    ensures
        placeholders(text_en(Msg::Details)) == Seq::<Seq<char>>::empty(),
{
    reveal_strlit("Details");
    let s = text_en(Msg::Details);
    reveal_with_fuel(scan_placeholders, 9);
    assert(placeholders(s) =~= Seq::<Seq<char>>::empty());
}

proof fn lemma_placeholders_zh_details()
    ensures
        placeholders(text_zh(Msg::Details)) == Seq::<Seq<char>>::empty(),
{
    reveal_strlit("详情");
    let s = text_zh(Msg::Details);
    reveal_with_fuel(scan_placeholders, 4);
    assert(placeholders(s) =~= Seq::<Seq<char>>::empty());
}

proof fn lemma_placeholders_es_details()
    ensures
        placeholders(text_es(Msg::Details)) == Seq::<Seq<char>>::empty(),
{
    reveal_strlit("Detalles");
    let s = text_es(Msg::Details);
    reveal_with_fuel(scan_placeholders, 10);
    assert(placeholders(s) =~= Seq::<Seq<char>>::empty());
}

proof fn lemma_placeholders_hi_details()
    ensures
        placeholders(text_hi(Msg::Details)) == Seq::<Seq<char>>::empty(),
{
    reveal_strlit("विवरण");
    let s = text_hi(Msg::Details);
    reveal_with_fuel(scan_placeholders, 7);
    assert(placeholders(s) =~= Seq::<Seq<char>>::empty());
}

proof fn lemma_placeholders_ar_details()
    ensures
        placeholders(text_ar(Msg::Details)) == Seq::<Seq<char>>::empty(),
{
    reveal_strlit("التفاصيل");
    let s = text_ar(Msg::Details);
    reveal_with_fuel(scan_placeholders, 10);
    assert(placeholders(s) =~= Seq::<Seq<char>>::empty());
}

proof fn lemma_placeholders_pt_details()
    ensures
        placeholders(text_pt(Msg::Details)) == Seq::<Seq<char>>::empty(),
{
    reveal_strlit("Detalhes");
    let s = text_pt(Msg::Details);
    reveal_with_fuel(scan_placeholders, 10);
    assert(placeholders(s) =~= Seq::<Seq<char>>::empty());
}

proof fn lemma_placeholders_ru_details()
    ensures
        placeholders(text_ru(Msg::Details)) == Seq::<Seq<char>>::empty(),
{
    reveal_strlit("Сведения");
    let s = text_ru(Msg::Details);
    reveal_with_fuel(scan_placeholders, 10);
    assert(placeholders(s) =~= Seq::<Seq<char>>::empty());
}

proof fn lemma_placeholders_en_information()
    ensures
        placeholders(text_en(Msg::Information)) == Seq::<Seq<char>>::empty(),
{
    reveal_strlit("Information");
    let s = text_en(Msg::Information);
    reveal_with_fuel(scan_placeholders, 13);
    assert(placeholders(s) =~= Seq::<Seq<char>>::empty());
}

proof fn lemma_placeholders_zh_information()
    ensures
        placeholders(text_zh(Msg::Information)) == Seq::<Seq<char>>::empty(),
{
    reveal_strlit("信息");
    let s = text_zh(Msg::Information);
    reveal_with_fuel(scan_placeholders, 4);
    assert(placeholders(s) =~= Seq::<Seq<char>>::empty());
}

proof fn lemma_placeholders_es_information()
    ensures
        placeholders(text_es(Msg::Information)) == Seq::<Seq<char>>::empty(),
{
    reveal_strlit("Información");
    let s = text_es(Msg::Information);
    reveal_with_fuel(scan_placeholders, 13);
    assert(placeholders(s) =~= Seq::<Seq<char>>::empty());
}

proof fn lemma_placeholders_hi_information()
    ensures
        placeholders(text_hi(Msg::Information)) == Seq::<Seq<char>>::empty(),
{
    reveal_strlit("जानकारी");
    let s = text_hi(Msg::Information);
    reveal_with_fuel(scan_placeholders, 9);
    assert(placeholders(s) =~= Seq::<Seq<char>>::empty());
}

proof fn lemma_placeholders_ar_information()
    ensures
        placeholders(text_ar(Msg::Information)) == Seq::<Seq<char>>::empty(),
{
    reveal_strlit("معلومات");
    let s = text_ar(Msg::Information);
    reveal_with_fuel(scan_placeholders, 9);
    assert(placeholders(s) =~= Seq::<Seq<char>>::empty());
}

proof fn lemma_placeholders_pt_information()
    ensures
        placeholders(text_pt(Msg::Information)) == Seq::<Seq<char>>::empty(),
{
    reveal_strlit("Informações");
    let s = text_pt(Msg::Information);
    reveal_with_fuel(scan_placeholders, 13);
    assert(placeholders(s) =~= Seq::<Seq<char>>::empty());
}

proof fn lemma_placeholders_ru_information()
    ensures
        placeholders(text_ru(Msg::Information)) == Seq::<Seq<char>>::empty(),
{
    reveal_strlit("Информация");
    let s = text_ru(Msg::Information);
    reveal_with_fuel(scan_placeholders, 12);
    assert(placeholders(s) =~= Seq::<Seq<char>>::empty());
}

proof fn lemma_placeholders_en_installation()
    ensures
        placeholders(text_en(Msg::Installation)) == Seq::<Seq<char>>::empty(),
{
    reveal_strlit("Installation");
    let s = text_en(Msg::Installation);
    reveal_with_fuel(scan_placeholders, 14);
    assert(placeholders(s) =~= Seq::<Seq<char>>::empty());
}

proof fn lemma_placeholders_zh_installation()
    ensures
        placeholders(text_zh(Msg::Installation)) == Seq::<Seq<char>>::empty(),
{
    reveal_strlit("安装");
    let s = text_zh(Msg::Installation);
    reveal_with_fuel(scan_placeholders, 4);
    assert(placeholders(s) =~= Seq::<Seq<char>>::empty());
}

proof fn lemma_placeholders_es_installation()
    ensures
        placeholders(text_es(Msg::Installation)) == Seq::<Seq<char>>::empty(),
{
    reveal_strlit("Instalación");
    let s = text_es(Msg::Installation);
    reveal_with_fuel(scan_placeholders, 13);
    assert(placeholders(s) =~= Seq::<Seq<char>>::empty());
}

proof fn lemma_placeholders_hi_installation()
    ensures
        placeholders(text_hi(Msg::Installation)) == Seq::<Seq<char>>::empty(),
{
    reveal_strlit("इंस्टॉलेशन");
    let s = text_hi(Msg::Installation);
    reveal_with_fuel(scan_placeholders, 12);
    assert(placeholders(s) =~= Seq::<Seq<char>>::empty());
}

proof fn lemma_placeholders_ar_installation()
    ensures
        placeholders(text_ar(Msg::Installation)) == Seq::<Seq<char>>::empty(),
{
    reveal_strlit("التثبيت");
    let s = text_ar(Msg::Installation);
    reveal_with_fuel(scan_placeholders, 9);
    assert(placeholders(s) =~= Seq::<Seq<char>>::empty());
}

proof fn lemma_placeholders_pt_installation()
    ensures
        placeholders(text_pt(Msg::Installation)) == Seq::<Seq<char>>::empty(),
{
    reveal_strlit("Instalação");
    let s = text_pt(Msg::Installation);
    reveal_with_fuel(scan_placeholders, 12);
    assert(placeholders(s) =~= Seq::<Seq<char>>::empty());
}

proof fn lemma_placeholders_ru_installation()
    ensures
        placeholders(text_ru(Msg::Installation)) == Seq::<Seq<char>>::empty(),
{
    reveal_strlit("Установка");
    let s = text_ru(Msg::Installation);
    reveal_with_fuel(scan_placeholders, 11);
    assert(placeholders(s) =~= Seq::<Seq<char>>::empty());
}

proof fn lemma_placeholders_en_version()
    ensures
        placeholders(text_en(Msg::Version)) == Seq::<Seq<char>>::empty(),
{
    reveal_strlit("Version");
    let s = text_en(Msg::Version);
    reveal_with_fuel(scan_placeholders, 9);
    assert(placeholders(s) =~= Seq::<Seq<char>>::empty());
}

proof fn lemma_placeholders_zh_version()
    ensures
        placeholders(text_zh(Msg::Version)) == Seq::<Seq<char>>::empty(),
{
    reveal_strlit("版本");
    let s = text_zh(Msg::Version);
    reveal_with_fuel(scan_placeholders, 4);
    assert(placeholders(s) =~= Seq::<Seq<char>>::empty());
}

proof fn lemma_placeholders_es_version()
    ensures
        placeholders(text_es(Msg::Version)) == Seq::<Seq<char>>::empty(),
{
    reveal_strlit("Versión");
    let s = text_es(Msg::Version);
    reveal_with_fuel(scan_placeholders, 9);
    assert(placeholders(s) =~= Seq::<Seq<char>>::empty());
}

proof fn lemma_placeholders_hi_version()
    ensures
        placeholders(text_hi(Msg::Version)) == Seq::<Seq<char>>::empty(),
{
    reveal_strlit("संस्करण");
    let s = text_hi(Msg::Version);
    reveal_with_fuel(scan_placeholders, 9);
    assert(placeholders(s) =~= Seq::<Seq<char>>::empty());
}

proof fn lemma_placeholders_ar_version()
    ensures
        placeholders(text_ar(Msg::Version)) == Seq::<Seq<char>>::empty(),
{
    reveal_strlit("الإصدار");
    let s = text_ar(Msg::Version);
    reveal_with_fuel(scan_placeholders, 9);
    assert(placeholders(s) =~= Seq::<Seq<char>>::empty());
}

proof fn lemma_placeholders_pt_version()
    ensures
        placeholders(text_pt(Msg::Version)) == Seq::<Seq<char>>::empty(),
{
    reveal_strlit("Versão");
    let s = text_pt(Msg::Version);
    reveal_with_fuel(scan_placeholders, 8);
    assert(placeholders(s) =~= Seq::<Seq<char>>::empty());
}

proof fn lemma_placeholders_ru_version()
    ensures
        placeholders(text_ru(Msg::Version)) == Seq::<Seq<char>>::empty(),
{
    reveal_strlit("Версия");
    let s = text_ru(Msg::Version);
    reveal_with_fuel(scan_placeholders, 8);
    assert(placeholders(s) =~= Seq::<Seq<char>>::empty());
}

proof fn lemma_placeholders_en_type()
    ensures
        placeholders(text_en(Msg::Type)) == Seq::<Seq<char>>::empty(),
{
    reveal_strlit("Type");
    let s = text_en(Msg::Type);
    reveal_with_fuel(scan_placeholders, 6);
    assert(placeholders(s) =~= Seq::<Seq<char>>::empty());
}

proof fn lemma_placeholders_zh_type()
    ensures
        placeholders(text_zh(Msg::Type)) == Seq::<Seq<char>>::empty(),
{
    reveal_strlit("类型");
    let s = text_zh(Msg::Type);
    reveal_with_fuel(scan_placeholders, 4);
    assert(placeholders(s) =~= Seq::<Seq<char>>::empty());
}

proof fn lemma_placeholders_es_type()
    ensures
        placeholders(text_es(Msg::Type)) == Seq::<Seq<char>>::empty(),
{
    reveal_strlit("Tipo");
    let s = text_es(Msg::Type);
    reveal_with_fuel(scan_placeholders, 6);
    assert(placeholders(s) =~= Seq::<Seq<char>>::empty());
}

proof fn lemma_placeholders_hi_type()
    ensures
        placeholders(text_hi(Msg::Type)) == Seq::<Seq<char>>::empty(),
{
    reveal_strlit("प्रकार");
    let s = text_hi(Msg::Type);
    reveal_with_fuel(scan_placeholders, 8);
    assert(placeholders(s) =~= Seq::<Seq<char>>::empty());
}

proof fn lemma_placeholders_ar_type()
    ensures
        placeholders(text_ar(Msg::Type)) == Seq::<Seq<char>>::empty(),
{
    reveal_strlit("النوع");
    let s = text_ar(Msg::Type);
    reveal_with_fuel(scan_placeholders, 7);
    assert(placeholders(s) =~= Seq::<Seq<char>>::empty());
}

proof fn lemma_placeholders_pt_type()
    ensures
        placeholders(text_pt(Msg::Type)) == Seq::<Seq<char>>::empty(),
{
    reveal_strlit("Tipo");
    let s = text_pt(Msg::Type);
    reveal_with_fuel(scan_placeholders, 6);
    assert(placeholders(s) =~= Seq::<Seq<char>>::empty());
}

proof fn lemma_placeholders_ru_type()
    ensures
        placeholders(text_ru(Msg::Type)) == Seq::<Seq<char>>::empty(),
{
    reveal_strlit("Тип");
    let s = text_ru(Msg::Type);
    reveal_with_fuel(scan_placeholders, 5);
    assert(placeholders(s) =~= Seq::<Seq<char>>::empty());
}

proof fn lemma_placeholders_en_type_app()
    ensures
        placeholders(text_en(Msg::TypeApp)) == Seq::<Seq<char>>::empty(),
{
    reveal_strlit("Application");
    let s = text_en(Msg::TypeApp);
    reveal_with_fuel(scan_placeholders, 13);
    assert(placeholders(s) =~= Seq::<Seq<char>>::empty());
}

proof fn lemma_placeholders_zh_type_app()
    ensures
        placeholders(text_zh(Msg::TypeApp)) == Seq::<Seq<char>>::empty(),
{
    reveal_strlit("应用程序");
    let s = text_zh(Msg::TypeApp);
    reveal_with_fuel(scan_placeholders, 6);
    assert(placeholders(s) =~= Seq::<Seq<char>>::empty());
}

proof fn lemma_placeholders_es_type_app()
    ensures
        placeholders(text_es(Msg::TypeApp)) == Seq::<Seq<char>>::empty(),
{
    reveal_strlit("Aplicación");
    let s = text_es(Msg::TypeApp);
    reveal_with_fuel(scan_placeholders, 12);
    assert(placeholders(s) =~= Seq::<Seq<char>>::empty());
}

proof fn lemma_placeholders_hi_type_app()
    ensures
        placeholders(text_hi(Msg::TypeApp)) == Seq::<Seq<char>>::empty(),
{
    reveal_strlit("एप्लिकेशन");
    let s = text_hi(Msg::TypeApp);
    reveal_with_fuel(scan_placeholders, 11);
    assert(placeholders(s) =~= Seq::<Seq<char>>::empty());
}

proof fn lemma_placeholders_ar_type_app()
    ensures
        placeholders(text_ar(Msg::TypeApp)) == Seq::<Seq<char>>::empty(),
{
    reveal_strlit("تطبيق");
    let s = text_ar(Msg::TypeApp);
    reveal_with_fuel(scan_placeholders, 7);
    assert(placeholders(s) =~= Seq::<Seq<char>>::empty());
}

proof fn lemma_placeholders_pt_type_app()
    ensures
        placeholders(text_pt(Msg::TypeApp)) == Seq::<Seq<char>>::empty(),
{
    reveal_strlit("Aplicativo");
    let s = text_pt(Msg::TypeApp);
    reveal_with_fuel(scan_placeholders, 12);
    assert(placeholders(s) =~= Seq::<Seq<char>>::empty());
}

proof fn lemma_placeholders_ru_type_app()
    ensures
        placeholders(text_ru(Msg::TypeApp)) == Seq::<Seq<char>>::empty(),
{
    reveal_strlit("Приложение");
    let s = text_ru(Msg::TypeApp);
    reveal_with_fuel(scan_placeholders, 12);
    assert(placeholders(s) =~= Seq::<Seq<char>>::empty());
}

proof fn lemma_placeholders_en_architecture()
    ensures
        placeholders(text_en(Msg::Architecture)) == Seq::<Seq<char>>::empty(),
{
    reveal_strlit("Architecture");
    let s = text_en(Msg::Architecture);
    reveal_with_fuel(scan_placeholders, 14);
    assert(placeholders(s) =~= Seq::<Seq<char>>::empty());
}

proof fn lemma_placeholders_zh_architecture()
    ensures
        placeholders(text_zh(Msg::Architecture)) == Seq::<Seq<char>>::empty(),
{
    reveal_strlit("架构");
    let s = text_zh(Msg::Architecture);
    reveal_with_fuel(scan_placeholders, 4);
    assert(placeholders(s) =~= Seq::<Seq<char>>::empty());
}

proof fn lemma_placeholders_es_architecture()
    ensures
        placeholders(text_es(Msg::Architecture)) == Seq::<Seq<char>>::empty(),
{
    reveal_strlit("Arquitectura");
    let s = text_es(Msg::Architecture);
    reveal_with_fuel(scan_placeholders, 14);
    assert(placeholders(s) =~= Seq::<Seq<char>>::empty());
}

proof fn lemma_placeholders_hi_architecture()
    ensures
        placeholders(text_hi(Msg::Architecture)) == Seq::<Seq<char>>::empty(),
{
    reveal_strlit("आर्किटेक्चर");
    let s = text_hi(Msg::Architecture);
    reveal_with_fuel(scan_placeholders, 13);
    assert(placeholders(s) =~= Seq::<Seq<char>>::empty());
}

proof fn lemma_placeholders_ar_architecture()
    ensures
        placeholders(text_ar(Msg::Architecture)) == Seq::<Seq<char>>::empty(),
{
    reveal_strlit("المعمارية");
    let s = text_ar(Msg::Architecture);
    reveal_with_fuel(scan_placeholders, 11);
    assert(placeholders(s) =~= Seq::<Seq<char>>::empty());
}

proof fn lemma_placeholders_pt_architecture()
    ensures
        placeholders(text_pt(Msg::Architecture)) == Seq::<Seq<char>>::empty(),
{
    reveal_strlit("Arquitetura");
    let s = text_pt(Msg::Architecture);
    reveal_with_fuel(scan_placeholders, 13);
    assert(placeholders(s) =~= Seq::<Seq<char>>::empty());
}

proof fn lemma_placeholders_ru_architecture()
    ensures
        placeholders(text_ru(Msg::Architecture)) == Seq::<Seq<char>>::empty(),
{
    reveal_strlit("Архитектура");
    let s = text_ru(Msg::Architecture);
    reveal_with_fuel(scan_placeholders, 13);
    assert(placeholders(s) =~= Seq::<Seq<char>>::empty());
}

proof fn lemma_placeholders_en_status()
    ensures
        placeholders(text_en(Msg::Status)) == Seq::<Seq<char>>::empty(),
{
    reveal_strlit("Status");
    let s = text_en(Msg::Status);
    reveal_with_fuel(scan_placeholders, 8);
    assert(placeholders(s) =~= Seq::<Seq<char>>::empty());
}

proof fn lemma_placeholders_zh_status()
    ensures
        placeholders(text_zh(Msg::Status)) == Seq::<Seq<char>>::empty(),
{
    reveal_strlit("状态");
    let s = text_zh(Msg::Status);
    reveal_with_fuel(scan_placeholders, 4);
    assert(placeholders(s) =~= Seq::<Seq<char>>::empty());
}

proof fn lemma_placeholders_es_status()
    ensures
        placeholders(text_es(Msg::Status)) == Seq::<Seq<char>>::empty(),
{
    reveal_strlit("Estado");
    let s = text_es(Msg::Status);
    reveal_with_fuel(scan_placeholders, 8);
    assert(placeholders(s) =~= Seq::<Seq<char>>::empty());
}

proof fn lemma_placeholders_hi_status()
    ensures
        placeholders(text_hi(Msg::Status)) == Seq::<Seq<char>>::empty(),
{
    reveal_strlit("स्थिति");
    let s = text_hi(Msg::Status);
    reveal_with_fuel(scan_placeholders, 8);
    assert(placeholders(s) =~= Seq::<Seq<char>>::empty());
}

proof fn lemma_placeholders_ar_status()
    ensures
        placeholders(text_ar(Msg::Status)) == Seq::<Seq<char>>::empty(),
{
    reveal_strlit("الحالة");
    let s = text_ar(Msg::Status);
    reveal_with_fuel(scan_placeholders, 8);
    assert(placeholders(s) =~= Seq::<Seq<char>>::empty());
}

proof fn lemma_placeholders_pt_status()
    ensures
        placeholders(text_pt(Msg::Status)) == Seq::<Seq<char>>::empty(),
{
    reveal_strlit("Status");
    let s = text_pt(Msg::Status);
    reveal_with_fuel(scan_placeholders, 8);
    assert(placeholders(s) =~= Seq::<Seq<char>>::empty());
}

proof fn lemma_placeholders_ru_status()
    ensures
        placeholders(text_ru(Msg::Status)) == Seq::<Seq<char>>::empty(),
{
    reveal_strlit("Статус");
    let s = text_ru(Msg::Status);
    reveal_with_fuel(scan_placeholders, 8);
    assert(placeholders(s) =~= Seq::<Seq<char>>::empty());
}

proof fn lemma_placeholders_en_category()
    ensures
        placeholders(text_en(Msg::Category)) == Seq::<Seq<char>>::empty(),
{
    reveal_strlit("Category");
    let s = text_en(Msg::Category);
    reveal_with_fuel(scan_placeholders, 10);
    assert(placeholders(s) =~= Seq::<Seq<char>>::empty());
}

proof fn lemma_placeholders_zh_category()
    ensures
        placeholders(text_zh(Msg::Category)) == Seq::<Seq<char>>::empty(),
{
    reveal_strlit("类别");
    let s = text_zh(Msg::Category);
    reveal_with_fuel(scan_placeholders, 4);
    assert(placeholders(s) =~= Seq::<Seq<char>>::empty());
}

proof fn lemma_placeholders_es_category()
    ensures
        placeholders(text_es(Msg::Category)) == Seq::<Seq<char>>::empty(),
{
    reveal_strlit("Categoría");
    let s = text_es(Msg::Category);
    reveal_with_fuel(scan_placeholders, 11);
    assert(placeholders(s) =~= Seq::<Seq<char>>::empty());
}

proof fn lemma_placeholders_hi_category()
    ensures
        placeholders(text_hi(Msg::Category)) == Seq::<Seq<char>>::empty(),
{
    reveal_strlit("श्रेणी");
    let s = text_hi(Msg::Category);
    reveal_with_fuel(scan_placeholders, 8);
    assert(placeholders(s) =~= Seq::<Seq<char>>::empty());
}

proof fn lemma_placeholders_ar_category()
    ensures
        placeholders(text_ar(Msg::Category)) == Seq::<Seq<char>>::empty(),
{
    reveal_strlit("الفئة");
    let s = text_ar(Msg::Category);
    reveal_with_fuel(scan_placeholders, 7);
    assert(placeholders(s) =~= Seq::<Seq<char>>::empty());
}

proof fn lemma_placeholders_pt_category()
    ensures
        placeholders(text_pt(Msg::Category)) == Seq::<Seq<char>>::empty(),
{
    reveal_strlit("Categoria");
    let s = text_pt(Msg::Category);
    reveal_with_fuel(scan_placeholders, 11);
    assert(placeholders(s) =~= Seq::<Seq<char>>::empty());
}

proof fn lemma_placeholders_ru_category()
    ensures
        placeholders(text_ru(Msg::Category)) == Seq::<Seq<char>>::empty(),
{
    reveal_strlit("Категория");
    let s = text_ru(Msg::Category);
    reveal_with_fuel(scan_placeholders, 11);
    assert(placeholders(s) =~= Seq::<Seq<char>>::empty());
}

proof fn lemma_placeholders_en_description()
    ensures
        placeholders(text_en(Msg::Description)) == Seq::<Seq<char>>::empty(),
{
    reveal_strlit("Description");
    let s = text_en(Msg::Description);
    reveal_with_fuel(scan_placeholders, 13);
    assert(placeholders(s) =~= Seq::<Seq<char>>::empty());
}

proof fn lemma_placeholders_zh_description()
    ensures
        placeholders(text_zh(Msg::Description)) == Seq::<Seq<char>>::empty(),
{
    reveal_strlit("描述");
    let s = text_zh(Msg::Description);
    reveal_with_fuel(scan_placeholders, 4);
    assert(placeholders(s) =~= Seq::<Seq<char>>::empty());
}

proof fn lemma_placeholders_es_description()
    ensures
        placeholders(text_es(Msg::Description)) == Seq::<Seq<char>>::empty(),
{
    reveal_strlit("Descripción");
    let s = text_es(Msg::Description);
    reveal_with_fuel(scan_placeholders, 13);
    assert(placeholders(s) =~= Seq::<Seq<char>>::empty());
}

proof fn lemma_placeholders_hi_description()
    ensures
        placeholders(text_hi(Msg::Description)) == Seq::<Seq<char>>::empty(),
{
    reveal_strlit("विवरण");
    let s = text_hi(Msg::Description);
    reveal_with_fuel(scan_placeholders, 7);
    assert(placeholders(s) =~= Seq::<Seq<char>>::empty());
}

proof fn lemma_placeholders_ar_description()
    ensures
        placeholders(text_ar(Msg::Description)) == Seq::<Seq<char>>::empty(),
{
    reveal_strlit("الوصف");
    let s = text_ar(Msg::Description);
    reveal_with_fuel(scan_placeholders, 7);
    assert(placeholders(s) =~= Seq::<Seq<char>>::empty());
}

proof fn lemma_placeholders_pt_description()
    ensures
        placeholders(text_pt(Msg::Description)) == Seq::<Seq<char>>::empty(),
{
    reveal_strlit("Descrição");
    let s = text_pt(Msg::Description);
    reveal_with_fuel(scan_placeholders, 11);
    assert(placeholders(s) =~= Seq::<Seq<char>>::empty());
}

proof fn lemma_placeholders_ru_description()
    ensures
        placeholders(text_ru(Msg::Description)) == Seq::<Seq<char>>::empty(),
{
    reveal_strlit("Описание");
    let s = text_ru(Msg::Description);
    reveal_with_fuel(scan_placeholders, 10);
    assert(placeholders(s) =~= Seq::<Seq<char>>::empty());
}

proof fn lemma_placeholders_en_method()
    ensures
        placeholders(text_en(Msg::Method)) == Seq::<Seq<char>>::empty(),
{
    reveal_strlit("Method");
    let s = text_en(Msg::Method);
    reveal_with_fuel(scan_placeholders, 8);
    assert(placeholders(s) =~= Seq::<Seq<char>>::empty());
}

proof fn lemma_placeholders_zh_method()
    ensures
        placeholders(text_zh(Msg::Method)) == Seq::<Seq<char>>::empty(),
{
    reveal_strlit("方式");
    let s = text_zh(Msg::Method);
    reveal_with_fuel(scan_placeholders, 4);
    assert(placeholders(s) =~= Seq::<Seq<char>>::empty());
}

proof fn lemma_placeholders_es_method()
    ensures
        placeholders(text_es(Msg::Method)) == Seq::<Seq<char>>::empty(),
{
    reveal_strlit("Método");
    let s = text_es(Msg::Method);
    reveal_with_fuel(scan_placeholders, 8);
    assert(placeholders(s) =~= Seq::<Seq<char>>::empty());
}

proof fn lemma_placeholders_hi_method()
    ensures
        placeholders(text_hi(Msg::Method)) == Seq::<Seq<char>>::empty(),
{
    reveal_strlit("विधि");
    let s = text_hi(Msg::Method);
    reveal_with_fuel(scan_placeholders, 6);
    assert(placeholders(s) =~= Seq::<Seq<char>>::empty());
}

proof fn lemma_placeholders_ar_method()
    ensures
        placeholders(text_ar(Msg::Method)) == Seq::<Seq<char>>::empty(),
{
    reveal_strlit("الطريقة");
    let s = text_ar(Msg::Method);
    reveal_with_fuel(scan_placeholders, 9);
    assert(placeholders(s) =~= Seq::<Seq<char>>::empty());
}

proof fn lemma_placeholders_pt_method()
    ensures
        placeholders(text_pt(Msg::Method)) == Seq::<Seq<char>>::empty(),
{
    reveal_strlit("Método");
    let s = text_pt(Msg::Method);
    reveal_with_fuel(scan_placeholders, 8);
    assert(placeholders(s) =~= Seq::<Seq<char>>::empty());
}

proof fn lemma_placeholders_ru_method()
    ensures
        placeholders(text_ru(Msg::Method)) == Seq::<Seq<char>>::empty(),
{
    reveal_strlit("Способ");
    let s = text_ru(Msg::Method);
    reveal_with_fuel(scan_placeholders, 8);
    assert(placeholders(s) =~= Seq::<Seq<char>>::empty());
}

proof fn lemma_placeholders_en_origin()
    ensures
        placeholders(text_en(Msg::Origin)) == Seq::<Seq<char>>::empty(),
{
    reveal_strlit("Origin");
    let s = text_en(Msg::Origin);
    reveal_with_fuel(scan_placeholders, 8);
    assert(placeholders(s) =~= Seq::<Seq<char>>::empty());
}

proof fn lemma_placeholders_zh_origin()
    ensures
        placeholders(text_zh(Msg::Origin)) == Seq::<Seq<char>>::empty(),
{
    reveal_strlit("来源");
    let s = text_zh(Msg::Origin);
    reveal_with_fuel(scan_placeholders, 4);
    assert(placeholders(s) =~= Seq::<Seq<char>>::empty());
}

proof fn lemma_placeholders_es_origin()
    ensures
        placeholders(text_es(Msg::Origin)) == Seq::<Seq<char>>::empty(),
{
    reveal_strlit("Origen");
    let s = text_es(Msg::Origin);
    reveal_with_fuel(scan_placeholders, 8);
    assert(placeholders(s) =~= Seq::<Seq<char>>::empty());
}

proof fn lemma_placeholders_hi_origin()
    ensures
        placeholders(text_hi(Msg::Origin)) == Seq::<Seq<char>>::empty(),
{
    reveal_strlit("स्रोत");
    let s = text_hi(Msg::Origin);
    reveal_with_fuel(scan_placeholders, 7);
    assert(placeholders(s) =~= Seq::<Seq<char>>::empty());
}

proof fn lemma_placeholders_ar_origin()
    ensures
        placeholders(text_ar(Msg::Origin)) == Seq::<Seq<char>>::empty(),
{
    reveal_strlit("المصدر");
    let s = text_ar(Msg::Origin);
    reveal_with_fuel(scan_placeholders, 8);
    assert(placeholders(s) =~= Seq::<Seq<char>>::empty());
}

proof fn lemma_placeholders_pt_origin()
    ensures
        placeholders(text_pt(Msg::Origin)) == Seq::<Seq<char>>::empty(),
{
    reveal_strlit("Origem");
    let s = text_pt(Msg::Origin);
    reveal_with_fuel(scan_placeholders, 8);
    assert(placeholders(s) =~= Seq::<Seq<char>>::empty());
}

proof fn lemma_placeholders_ru_origin()
    ensures
        placeholders(text_ru(Msg::Origin)) == Seq::<Seq<char>>::empty(),
{
    reveal_strlit("Источник");
    let s = text_ru(Msg::Origin);
    reveal_with_fuel(scan_placeholders, 10);
    assert(placeholders(s) =~= Seq::<Seq<char>>::empty());
}

proof fn lemma_placeholders_en_location()
    ensures
        placeholders(text_en(Msg::Location)) == Seq::<Seq<char>>::empty(),
{
    reveal_strlit("Location");
    let s = text_en(Msg::Location);
    reveal_with_fuel(scan_placeholders, 10);
    assert(placeholders(s) =~= Seq::<Seq<char>>::empty());
}

proof fn lemma_placeholders_zh_location()
    ensures
        placeholders(text_zh(Msg::Location)) == Seq::<Seq<char>>::empty(),
{
    reveal_strlit("位置");
    let s = text_zh(Msg::Location);
    reveal_with_fuel(scan_placeholders, 4);
    assert(placeholders(s) =~= Seq::<Seq<char>>::empty());
}

proof fn lemma_placeholders_es_location()
    ensures
        placeholders(text_es(Msg::Location)) == Seq::<Seq<char>>::empty(),
{
    reveal_strlit("Ubicación");
    let s = text_es(Msg::Location);
    reveal_with_fuel(scan_placeholders, 11);
    assert(placeholders(s) =~= Seq::<Seq<char>>::empty());
}

proof fn lemma_placeholders_hi_location()
    ensures
        placeholders(text_hi(Msg::Location)) == Seq::<Seq<char>>::empty(),
{
    reveal_strlit("स्थान");
    let s = text_hi(Msg::Location);
    reveal_with_fuel(scan_placeholders, 7);
    assert(placeholders(s) =~= Seq::<Seq<char>>::empty());
}

proof fn lemma_placeholders_ar_location()
    ensures
        placeholders(text_ar(Msg::Location)) == Seq::<Seq<char>>::empty(),
{
    reveal_strlit("الموقع");
    let s = text_ar(Msg::Location);
    reveal_with_fuel(scan_placeholders, 8);
    assert(placeholders(s) =~= Seq::<Seq<char>>::empty());
}

proof fn lemma_placeholders_pt_location()
    ensures
        placeholders(text_pt(Msg::Location)) == Seq::<Seq<char>>::empty(),
{
    reveal_strlit("Local");
    let s = text_pt(Msg::Location);
    reveal_with_fuel(scan_placeholders, 7);
    assert(placeholders(s) =~= Seq::<Seq<char>>::empty());
}

proof fn lemma_placeholders_ru_location()
    ensures
        placeholders(text_ru(Msg::Location)) == Seq::<Seq<char>>::empty(),
{
    reveal_strlit("Расположение");
    let s = text_ru(Msg::Location);
    reveal_with_fuel(scan_placeholders, 14);
    assert(placeholders(s) =~= Seq::<Seq<char>>::empty());
}

proof fn lemma_placeholders_en_size()
    ensures
        placeholders(text_en(Msg::Size)) == Seq::<Seq<char>>::empty(),
{
    reveal_strlit("Size");
    let s = text_en(Msg::Size);
    reveal_with_fuel(scan_placeholders, 6);
    assert(placeholders(s) =~= Seq::<Seq<char>>::empty());
}

proof fn lemma_placeholders_zh_size()
    ensures
        placeholders(text_zh(Msg::Size)) == Seq::<Seq<char>>::empty(),
{
    reveal_strlit("大小");
    let s = text_zh(Msg::Size);
    reveal_with_fuel(scan_placeholders, 4);
    assert(placeholders(s) =~= Seq::<Seq<char>>::empty());
}

proof fn lemma_placeholders_es_size()
    ensures
        placeholders(text_es(Msg::Size)) == Seq::<Seq<char>>::empty(),
{
    reveal_strlit("Tamaño");
    let s = text_es(Msg::Size);
    reveal_with_fuel(scan_placeholders, 8);
    assert(placeholders(s) =~= Seq::<Seq<char>>::empty());
}

proof fn lemma_placeholders_hi_size()
    ensures
        placeholders(text_hi(Msg::Size)) == Seq::<Seq<char>>::empty(),
{
    reveal_strlit("आकार");
    let s = text_hi(Msg::Size);
    reveal_with_fuel(scan_placeholders, 6);
    assert(placeholders(s) =~= Seq::<Seq<char>>::empty());
}

proof fn lemma_placeholders_ar_size()
    ensures
        placeholders(text_ar(Msg::Size)) == Seq::<Seq<char>>::empty(),
{
    reveal_strlit("الحجم");
    let s = text_ar(Msg::Size);
    reveal_with_fuel(scan_placeholders, 7);
    assert(placeholders(s) =~= Seq::<Seq<char>>::empty());
}

proof fn lemma_placeholders_pt_size()
    ensures
        placeholders(text_pt(Msg::Size)) == Seq::<Seq<char>>::empty(),
{
    reveal_strlit("Tamanho");
    let s = text_pt(Msg::Size);
    reveal_with_fuel(scan_placeholders, 9);
    assert(placeholders(s) =~= Seq::<Seq<char>>::empty());
}

proof fn lemma_placeholders_ru_size()
    ensures
        placeholders(text_ru(Msg::Size)) == Seq::<Seq<char>>::empty(),
{
    reveal_strlit("Размер");
    let s = text_ru(Msg::Size);
    reveal_with_fuel(scan_placeholders, 8);
    assert(placeholders(s) =~= Seq::<Seq<char>>::empty());
}

proof fn lemma_placeholders_en_date()
    ensures
        placeholders(text_en(Msg::Date)) == Seq::<Seq<char>>::empty(),
{
    reveal_strlit("Date");
    let s = text_en(Msg::Date);
    reveal_with_fuel(scan_placeholders, 6);
    assert(placeholders(s) =~= Seq::<Seq<char>>::empty());
}

proof fn lemma_placeholders_zh_date()
    ensures
        placeholders(text_zh(Msg::Date)) == Seq::<Seq<char>>::empty(),
{
    reveal_strlit("日期");
    let s = text_zh(Msg::Date);
    reveal_with_fuel(scan_placeholders, 4);
    assert(placeholders(s) =~= Seq::<Seq<char>>::empty());
}

proof fn lemma_placeholders_es_date()
    ensures
        placeholders(text_es(Msg::Date)) == Seq::<Seq<char>>::empty(),
{
    reveal_strlit("Fecha");
    let s = text_es(Msg::Date);
    reveal_with_fuel(scan_placeholders, 7);
    assert(placeholders(s) =~= Seq::<Seq<char>>::empty());
}

proof fn lemma_placeholders_hi_date()
    ensures
        placeholders(text_hi(Msg::Date)) == Seq::<Seq<char>>::empty(),
{
    reveal_strlit("तिथि");
    let s = text_hi(Msg::Date);
    reveal_with_fuel(scan_placeholders, 6);
    assert(placeholders(s) =~= Seq::<Seq<char>>::empty());
}

proof fn lemma_placeholders_ar_date()
    ensures
        placeholders(text_ar(Msg::Date)) == Seq::<Seq<char>>::empty(),
{
    reveal_strlit("التاريخ");
    let s = text_ar(Msg::Date);
    reveal_with_fuel(scan_placeholders, 9);
    assert(placeholders(s) =~= Seq::<Seq<char>>::empty());
}

proof fn lemma_placeholders_pt_date()
    ensures
        placeholders(text_pt(Msg::Date)) == Seq::<Seq<char>>::empty(),
{
    reveal_strlit("Data");
    let s = text_pt(Msg::Date);
    reveal_with_fuel(scan_placeholders, 6);
    assert(placeholders(s) =~= Seq::<Seq<char>>::empty());
}

proof fn lemma_placeholders_ru_date()
    ensures
        placeholders(text_ru(Msg::Date)) == Seq::<Seq<char>>::empty(),
{
    reveal_strlit("Дата");
    let s = text_ru(Msg::Date);
    reveal_with_fuel(scan_placeholders, 6);
    assert(placeholders(s) =~= Seq::<Seq<char>>::empty());
}

proof fn lemma_placeholders_en_package()
    ensures
        placeholders(text_en(Msg::Package)) == Seq::<Seq<char>>::empty(),
{
    reveal_strlit("Package");
    let s = text_en(Msg::Package);
    reveal_with_fuel(scan_placeholders, 9);
    assert(placeholders(s) =~= Seq::<Seq<char>>::empty());
}

proof fn lemma_placeholders_zh_package()
    ensures
        placeholders(text_zh(Msg::Package)) == Seq::<Seq<char>>::empty(),
{
    reveal_strlit("软件包");
    let s = text_zh(Msg::Package);
    reveal_with_fuel(scan_placeholders, 5);
    assert(placeholders(s) =~= Seq::<Seq<char>>::empty());
}

proof fn lemma_placeholders_es_package()
    ensures
        placeholders(text_es(Msg::Package)) == Seq::<Seq<char>>::empty(),
{
    reveal_strlit("Paquete");
    let s = text_es(Msg::Package);
    reveal_with_fuel(scan_placeholders, 9);
    assert(placeholders(s) =~= Seq::<Seq<char>>::empty());
}

proof fn lemma_placeholders_hi_package()
    ensures
        placeholders(text_hi(Msg::Package)) == Seq::<Seq<char>>::empty(),
{
    reveal_strlit("पैकेज");
    let s = text_hi(Msg::Package);
    reveal_with_fuel(scan_placeholders, 7);
    assert(placeholders(s) =~= Seq::<Seq<char>>::empty());
}

proof fn lemma_placeholders_ar_package()
    ensures
        placeholders(text_ar(Msg::Package)) == Seq::<Seq<char>>::empty(),
{
    reveal_strlit("الحزمة");
    let s = text_ar(Msg::Package);
    reveal_with_fuel(scan_placeholders, 8);
    assert(placeholders(s) =~= Seq::<Seq<char>>::empty());
}

proof fn lemma_placeholders_pt_package()
    ensures
        placeholders(text_pt(Msg::Package)) == Seq::<Seq<char>>::empty(),
{
    reveal_strlit("Pacote");
    let s = text_pt(Msg::Package);
    reveal_with_fuel(scan_placeholders, 8);
    assert(placeholders(s) =~= Seq::<Seq<char>>::empty());
}

proof fn lemma_placeholders_ru_package()
    ensures
        placeholders(text_ru(Msg::Package)) == Seq::<Seq<char>>::empty(),
{
    reveal_strlit("Пакет");
    let s = text_ru(Msg::Package);
    reveal_with_fuel(scan_placeholders, 7);
    assert(placeholders(s) =~= Seq::<Seq<char>>::empty());
}

proof fn lemma_placeholders_en_uninstall()
    ensures
        placeholders(text_en(Msg::Uninstall)) == Seq::<Seq<char>>::empty(),
{
    reveal_strlit("Uninstall");
    let s = text_en(Msg::Uninstall);
    reveal_with_fuel(scan_placeholders, 11);
    assert(placeholders(s) =~= Seq::<Seq<char>>::empty());
}

proof fn lemma_placeholders_zh_uninstall()
    ensures
        placeholders(text_zh(Msg::Uninstall)) == Seq::<Seq<char>>::empty(),
{
    reveal_strlit("卸载");
    let s = text_zh(Msg::Uninstall);
    reveal_with_fuel(scan_placeholders, 4);
    assert(placeholders(s) =~= Seq::<Seq<char>>::empty());
}

proof fn lemma_placeholders_es_uninstall()
    ensures
        placeholders(text_es(Msg::Uninstall)) == Seq::<Seq<char>>::empty(),
{
    reveal_strlit("Desinstalar");
    let s = text_es(Msg::Uninstall);
    reveal_with_fuel(scan_placeholders, 13);
    assert(placeholders(s) =~= Seq::<Seq<char>>::empty());
}

proof fn lemma_placeholders_hi_uninstall()
    ensures
        placeholders(text_hi(Msg::Uninstall)) == Seq::<Seq<char>>::empty(),
{
    reveal_strlit("अनइंस्टॉल");
    let s = text_hi(Msg::Uninstall);
    reveal_with_fuel(scan_placeholders, 11);
    assert(placeholders(s) =~= Seq::<Seq<char>>::empty());
}

proof fn lemma_placeholders_ar_uninstall()
    ensures
        placeholders(text_ar(Msg::Uninstall)) == Seq::<Seq<char>>::empty(),
{
    reveal_strlit("إلغاء التثبيت");
    let s = text_ar(Msg::Uninstall);
    reveal_with_fuel(scan_placeholders, 15);
    assert(placeholders(s) =~= Seq::<Seq<char>>::empty());
}

proof fn lemma_placeholders_pt_uninstall()
    ensures
        placeholders(text_pt(Msg::Uninstall)) == Seq::<Seq<char>>::empty(),
{
    reveal_strlit("Desinstalar");
    let s = text_pt(Msg::Uninstall);
    reveal_with_fuel(scan_placeholders, 13);
    assert(placeholders(s) =~= Seq::<Seq<char>>::empty());
}

proof fn lemma_placeholders_ru_uninstall()
    ensures
        placeholders(text_ru(Msg::Uninstall)) == Seq::<Seq<char>>::empty(),
{
    reveal_strlit("Удалить");
    let s = text_ru(Msg::Uninstall);
    reveal_with_fuel(scan_placeholders, 9);
    assert(placeholders(s) =~= Seq::<Seq<char>>::empty());
}

proof fn lemma_placeholders_en_uninstall_confirm_title()
    ensures
        placeholders(text_en(Msg::UninstallConfirmTitle)) == seq!["name"@],
{
    reveal_strlit("name");
    reveal_strlit("Uninstall {name}?");
    let s = text_en(Msg::UninstallConfirmTitle);
    assert(s.subrange(11, 15) =~= "name"@);
    reveal_with_fuel(scan_placeholders, 19);
    assert(placeholders(s) =~= seq!["name"@]);
}

proof fn lemma_placeholders_zh_uninstall_confirm_title()
    ensures
        placeholders(text_zh(Msg::UninstallConfirmTitle)) == seq!["name"@],
{
    reveal_strlit("name");
    reveal_strlit("卸载 {name}？");
    let s = text_zh(Msg::UninstallConfirmTitle);
    assert(s.subrange(4, 8) =~= "name"@);
    reveal_with_fuel(scan_placeholders, 12);
    assert(placeholders(s) =~= seq!["name"@]);
}

proof fn lemma_placeholders_es_uninstall_confirm_title()
    ensures
        placeholders(text_es(Msg::UninstallConfirmTitle)) == seq!["name"@],
{
    reveal_strlit("name");
    reveal_strlit("¿Desinstalar {name}?");
    let s = text_es(Msg::UninstallConfirmTitle);
    assert(s.subrange(14, 18) =~= "name"@);
    reveal_with_fuel(scan_placeholders, 22);
    assert(placeholders(s) =~= seq!["name"@]);
}

proof fn lemma_placeholders_hi_uninstall_confirm_title()
    ensures
        placeholders(text_hi(Msg::UninstallConfirmTitle)) == seq!["name"@],
{
    reveal_strlit("name");
    reveal_strlit("{name} अनइंस्टॉल करें?");
    let s = text_hi(Msg::UninstallConfirmTitle);
    assert(s.subrange(1, 5) =~= "name"@);
    reveal_with_fuel(scan_placeholders, 24);
    assert(placeholders(s) =~= seq!["name"@]);
}

proof fn lemma_placeholders_ar_uninstall_confirm_title()
    ensures
        placeholders(text_ar(Msg::UninstallConfirmTitle)) == seq!["name"@],
{
    reveal_strlit("name");
    reveal_strlit("إلغاء تثبيت {name}؟");
    let s = text_ar(Msg::UninstallConfirmTitle);
    assert(s.subrange(13, 17) =~= "name"@);
    reveal_with_fuel(scan_placeholders, 21);
    assert(placeholders(s) =~= seq!["name"@]);
}

proof fn lemma_placeholders_pt_uninstall_confirm_title()
    ensures
        placeholders(text_pt(Msg::UninstallConfirmTitle)) == seq!["name"@],
{
    reveal_strlit("name");
    reveal_strlit("Desinstalar {name}?");
    let s = text_pt(Msg::UninstallConfirmTitle);
    assert(s.subrange(13, 17) =~= "name"@);
    reveal_with_fuel(scan_placeholders, 21);
    assert(placeholders(s) =~= seq!["name"@]);
}

proof fn lemma_placeholders_ru_uninstall_confirm_title()
    ensures
        placeholders(text_ru(Msg::UninstallConfirmTitle)) == seq!["name"@],
{
    reveal_strlit("name");
    reveal_strlit("Удалить {name}?");
    let s = text_ru(Msg::UninstallConfirmTitle);
    assert(s.subrange(9, 13) =~= "name"@);
    reveal_with_fuel(scan_placeholders, 17);
    assert(placeholders(s) =~= seq!["name"@]);
}

proof fn lemma_placeholders_en_uninstall_confirm_body()
    ensures
        placeholders(text_en(Msg::UninstallConfirmBody)) == seq!["name"@, "method"@, "details"@],
{
    reveal_strlit("name");
    reveal_strlit("method");
    reveal_strlit("details");
    reveal_strlit("Uninstall {name}?\n\nThis app was installed via {method}.\n\n{details}");
    let s = text_en(Msg::UninstallConfirmBody);
    assert(s.subrange(11, 15) =~= "name"@);
    assert(s.subrange(47, 53) =~= "method"@);
    assert(s.subrange(58, 65) =~= "details"@);
    reveal_with_fuel(scan_placeholders, 68);
    assert(placeholders(s) =~= seq!["name"@, "method"@, "details"@]);
}

proof fn lemma_placeholders_zh_uninstall_confirm_body()
    ensures
        placeholders(text_zh(Msg::UninstallConfirmBody)) == seq!["name"@, "method"@, "details"@],
{
    reveal_strlit("name");
    reveal_strlit("method");
    reveal_strlit("details");
    reveal_strlit("卸载 {name}？\n\n此应用通过 {method} 安装。\n\n{details}");
    let s = text_zh(Msg::UninstallConfirmBody);
    assert(s.subrange(4, 8) =~= "name"@);
    assert(s.subrange(19, 25) =~= "method"@);
    assert(s.subrange(33, 40) =~= "details"@);
    reveal_with_fuel(scan_placeholders, 43);
    assert(placeholders(s) =~= seq!["name"@, "method"@, "details"@]);
}

proof fn lemma_placeholders_es_uninstall_confirm_body()
    ensures
        placeholders(text_es(Msg::UninstallConfirmBody)) == seq!["name"@, "method"@, "details"@],
{
    reveal_strlit("name");
    reveal_strlit("method");
    reveal_strlit("details");
    reveal_strlit("¿Desinstalar {name}?\n\nEsta app se instaló vía {method}.\n\n{details}");
    let s = text_es(Msg::UninstallConfirmBody);
    assert(s.subrange(14, 18) =~= "name"@);
    assert(s.subrange(47, 53) =~= "method"@);
    assert(s.subrange(58, 65) =~= "details"@);
    reveal_with_fuel(scan_placeholders, 68);
    assert(placeholders(s) =~= seq!["name"@, "method"@, "details"@]);
}

proof fn lemma_placeholders_hi_uninstall_confirm_body()
    ensures
        placeholders(text_hi(Msg::UninstallConfirmBody)) == seq!["name"@, "method"@, "details"@],
{
    reveal_strlit("name");
    reveal_strlit("method");
    reveal_strlit("details");
    reveal_strlit("{name} अनइंस्टॉल करें?\n\nयह ऐप {method} से इंस्टॉल हुआ था।\n\n{details}");
    let s = text_hi(Msg::UninstallConfirmBody);
    assert(s.subrange(1, 5) =~= "name"@);
    assert(s.subrange(31, 37) =~= "method"@);
    assert(s.subrange(60, 67) =~= "details"@);
    reveal_with_fuel(scan_placeholders, 70);
    assert(placeholders(s) =~= seq!["name"@, "method"@, "details"@]);
}

proof fn lemma_placeholders_ar_uninstall_confirm_body()
    ensures
        placeholders(text_ar(Msg::UninstallConfirmBody)) == seq!["name"@, "method"@, "details"@],
{
    reveal_strlit("name");
    reveal_strlit("method");
    reveal_strlit("details");
    reveal_strlit("إلغاء تثبيت {name}؟\n\nتم تثبيت هذا التطبيق عبر {method}.\n\n{details}");
    let s = text_ar(Msg::UninstallConfirmBody);
    assert(s.subrange(13, 17) =~= "name"@);
    assert(s.subrange(47, 53) =~= "method"@);
    assert(s.subrange(58, 65) =~= "details"@);
    reveal_with_fuel(scan_placeholders, 68);
    assert(placeholders(s) =~= seq!["name"@, "method"@, "details"@]);
}

proof fn lemma_placeholders_pt_uninstall_confirm_body()
    ensures
        placeholders(text_pt(Msg::UninstallConfirmBody)) == seq!["name"@, "method"@, "details"@],
{
    reveal_strlit("name");
    reveal_strlit("method");
    reveal_strlit("details");
    reveal_strlit("Desinstalar {name}?\n\nEste aplicativo foi instalado via {method}.\n\n{details}");
    let s = text_pt(Msg::UninstallConfirmBody);
    assert(s.subrange(13, 17) =~= "name"@);
    assert(s.subrange(56, 62) =~= "method"@);
    assert(s.subrange(67, 74) =~= "details"@);
    reveal_with_fuel(scan_placeholders, 77);
    assert(placeholders(s) =~= seq!["name"@, "method"@, "details"@]);
}

proof fn lemma_placeholders_ru_uninstall_confirm_body()
    ensures
        placeholders(text_ru(Msg::UninstallConfirmBody)) == seq!["name"@, "method"@, "details"@],
{
    reveal_strlit("name");
    reveal_strlit("method");
    reveal_strlit("details");
    reveal_strlit("Удалить {name}?\n\nЭто приложение установлено через {method}.\n\n{details}");
    let s = text_ru(Msg::UninstallConfirmBody);
    assert(s.subrange(9, 13) =~= "name"@);
    assert(s.subrange(51, 57) =~= "method"@);
    assert(s.subrange(62, 69) =~= "details"@);
    reveal_with_fuel(scan_placeholders, 72);
    assert(placeholders(s) =~= seq!["name"@, "method"@, "details"@]);
}

proof fn lemma_placeholders_en_cancel()
    ensures
        placeholders(text_en(Msg::Cancel)) == Seq::<Seq<char>>::empty(),
{
    reveal_strlit("Cancel");
    let s = text_en(Msg::Cancel);
    reveal_with_fuel(scan_placeholders, 8);
    assert(placeholders(s) =~= Seq::<Seq<char>>::empty());
}

proof fn lemma_placeholders_zh_cancel()
    ensures
        placeholders(text_zh(Msg::Cancel)) == Seq::<Seq<char>>::empty(),
{
    reveal_strlit("取消");
    let s = text_zh(Msg::Cancel);
    reveal_with_fuel(scan_placeholders, 4);
    assert(placeholders(s) =~= Seq::<Seq<char>>::empty());
}

proof fn lemma_placeholders_es_cancel()
    ensures
        placeholders(text_es(Msg::Cancel)) == Seq::<Seq<char>>::empty(),
{
    reveal_strlit("Cancelar");
    let s = text_es(Msg::Cancel);
    reveal_with_fuel(scan_placeholders, 10);
    assert(placeholders(s) =~= Seq::<Seq<char>>::empty());
}

proof fn lemma_placeholders_hi_cancel()
    ensures
        placeholders(text_hi(Msg::Cancel)) == Seq::<Seq<char>>::empty(),
{
    reveal_strlit("रद्द करें");
    let s = text_hi(Msg::Cancel);
    reveal_with_fuel(scan_placeholders, 11);
    assert(placeholders(s) =~= Seq::<Seq<char>>::empty());
}

proof fn lemma_placeholders_ar_cancel()
    ensures
        placeholders(text_ar(Msg::Cancel)) == Seq::<Seq<char>>::empty(),
{
    reveal_strlit("إلغاء");
    let s = text_ar(Msg::Cancel);
    reveal_with_fuel(scan_placeholders, 7);
    assert(placeholders(s) =~= Seq::<Seq<char>>::empty());
}

proof fn lemma_placeholders_pt_cancel()
    ensures
        placeholders(text_pt(Msg::Cancel)) == Seq::<Seq<char>>::empty(),
{
    reveal_strlit("Cancelar");
    let s = text_pt(Msg::Cancel);
    reveal_with_fuel(scan_placeholders, 10);
    assert(placeholders(s) =~= Seq::<Seq<char>>::empty());
}

proof fn lemma_placeholders_ru_cancel()
    ensures
        placeholders(text_ru(Msg::Cancel)) == Seq::<Seq<char>>::empty(),
{
    reveal_strlit("Отмена");
    let s = text_ru(Msg::Cancel);
    reveal_with_fuel(scan_placeholders, 8);
    assert(placeholders(s) =~= Seq::<Seq<char>>::empty());
}

proof fn lemma_placeholders_en_close()
    ensures
        placeholders(text_en(Msg::Close)) == Seq::<Seq<char>>::empty(),
{
    reveal_strlit("Close");
    let s = text_en(Msg::Close);
    reveal_with_fuel(scan_placeholders, 7);
    assert(placeholders(s) =~= Seq::<Seq<char>>::empty());
}

proof fn lemma_placeholders_zh_close()
    ensures
        placeholders(text_zh(Msg::Close)) == Seq::<Seq<char>>::empty(),
{
    reveal_strlit("关闭");
    let s = text_zh(Msg::Close);
    reveal_with_fuel(scan_placeholders, 4);
    assert(placeholders(s) =~= Seq::<Seq<char>>::empty());
}

proof fn lemma_placeholders_es_close()
    ensures
        placeholders(text_es(Msg::Close)) == Seq::<Seq<char>>::empty(),
{
    reveal_strlit("Cerrar");
    let s = text_es(Msg::Close);
    reveal_with_fuel(scan_placeholders, 8);
    assert(placeholders(s) =~= Seq::<Seq<char>>::empty());
}

proof fn lemma_placeholders_hi_close()
    ensures
        placeholders(text_hi(Msg::Close)) == Seq::<Seq<char>>::empty(),
{
    reveal_strlit("बंद करें");
    let s = text_hi(Msg::Close);
    reveal_with_fuel(scan_placeholders, 10);
    assert(placeholders(s) =~= Seq::<Seq<char>>::empty());
}

proof fn lemma_placeholders_ar_close()
    ensures
        placeholders(text_ar(Msg::Close)) == Seq::<Seq<char>>::empty(),
{
    reveal_strlit("إغلاق");
    let s = text_ar(Msg::Close);
    reveal_with_fuel(scan_placeholders, 7);
    assert(placeholders(s) =~= Seq::<Seq<char>>::empty());
}

proof fn lemma_placeholders_pt_close()
    ensures
        placeholders(text_pt(Msg::Close)) == Seq::<Seq<char>>::empty(),
{
    reveal_strlit("Fechar");
    let s = text_pt(Msg::Close);
    reveal_with_fuel(scan_placeholders, 8);
    assert(placeholders(s) =~= Seq::<Seq<char>>::empty());
}

proof fn lemma_placeholders_ru_close()
    ensures
        placeholders(text_ru(Msg::Close)) == Seq::<Seq<char>>::empty(),
{
    reveal_strlit("Закрыть");
    let s = text_ru(Msg::Close);
    reveal_with_fuel(scan_placeholders, 9);
    assert(placeholders(s) =~= Seq::<Seq<char>>::empty());
}

proof fn lemma_placeholders_en_uninstalled()
    ensures
        placeholders(text_en(Msg::Uninstalled)) == seq!["name"@],
{
    reveal_strlit("name");
    reveal_strlit("{name} uninstalled");
    let s = text_en(Msg::Uninstalled);
    assert(s.subrange(1, 5) =~= "name"@);
    reveal_with_fuel(scan_placeholders, 20);
    assert(placeholders(s) =~= seq!["name"@]);
}

proof fn lemma_placeholders_zh_uninstalled()
    ensures
        placeholders(text_zh(Msg::Uninstalled)) == seq!["name"@],
{
    reveal_strlit("name");
    reveal_strlit("已卸载 {name}");
    let s = text_zh(Msg::Uninstalled);
    assert(s.subrange(5, 9) =~= "name"@);
    reveal_with_fuel(scan_placeholders, 12);
    assert(placeholders(s) =~= seq!["name"@]);
}

proof fn lemma_placeholders_es_uninstalled()
    ensures
        placeholders(text_es(Msg::Uninstalled)) == seq!["name"@],
{
    reveal_strlit("name");
    reveal_strlit("{name} desinstalada");
    let s = text_es(Msg::Uninstalled);
    assert(s.subrange(1, 5) =~= "name"@);
    reveal_with_fuel(scan_placeholders, 21);
    assert(placeholders(s) =~= seq!["name"@]);
}

proof fn lemma_placeholders_hi_uninstalled()
    ensures
        placeholders(text_hi(Msg::Uninstalled)) == seq!["name"@],
{
    reveal_strlit("name");
    reveal_strlit("{name} अनइंस्टॉल हो गया");
    let s = text_hi(Msg::Uninstalled);
    assert(s.subrange(1, 5) =~= "name"@);
    reveal_with_fuel(scan_placeholders, 25);
    assert(placeholders(s) =~= seq!["name"@]);
}

proof fn lemma_placeholders_ar_uninstalled()
    ensures
        placeholders(text_ar(Msg::Uninstalled)) == seq!["name"@],
{
    reveal_strlit("name");
    reveal_strlit("تم إلغاء تثبيت {name}");
    let s = text_ar(Msg::Uninstalled);
    assert(s.subrange(16, 20) =~= "name"@);
    reveal_with_fuel(scan_placeholders, 23);
    assert(placeholders(s) =~= seq!["name"@]);
}

proof fn lemma_placeholders_pt_uninstalled()
    ensures
        placeholders(text_pt(Msg::Uninstalled)) == seq!["name"@],
{
    reveal_strlit("name");
    reveal_strlit("{name} desinstalado");
    let s = text_pt(Msg::Uninstalled);
    assert(s.subrange(1, 5) =~= "name"@);
    reveal_with_fuel(scan_placeholders, 21);
    assert(placeholders(s) =~= seq!["name"@]);
}

proof fn lemma_placeholders_ru_uninstalled()
    ensures
        placeholders(text_ru(Msg::Uninstalled)) == seq!["name"@],
{
    reveal_strlit("name");
    reveal_strlit("{name} удалено");
    let s = text_ru(Msg::Uninstalled);
    assert(s.subrange(1, 5) =~= "name"@);
    reveal_with_fuel(scan_placeholders, 16);
    assert(placeholders(s) =~= seq!["name"@]);
}

proof fn lemma_placeholders_en_failure()
    ensures
        placeholders(text_en(Msg::Failure)) == seq!["error"@],
{
    reveal_strlit("error");
    reveal_strlit("Failed: {error}");
    let s = text_en(Msg::Failure);
    assert(s.subrange(9, 14) =~= "error"@);
    reveal_with_fuel(scan_placeholders, 17);
    assert(placeholders(s) =~= seq!["error"@]);
}

proof fn lemma_placeholders_zh_failure()
    ensures
        placeholders(text_zh(Msg::Failure)) == seq!["error"@],
{
    reveal_strlit("error");
    reveal_strlit("失败：{error}");
    let s = text_zh(Msg::Failure);
    assert(s.subrange(4, 9) =~= "error"@);
    reveal_with_fuel(scan_placeholders, 12);
    assert(placeholders(s) =~= seq!["error"@]);
}

proof fn lemma_placeholders_es_failure()
    ensures
        placeholders(text_es(Msg::Failure)) == seq!["error"@],
{
    reveal_strlit("error");
    reveal_strlit("Error: {error}");
    let s = text_es(Msg::Failure);
    assert(s.subrange(8, 13) =~= "error"@);
    reveal_with_fuel(scan_placeholders, 16);
    assert(placeholders(s) =~= seq!["error"@]);
}

proof fn lemma_placeholders_hi_failure()
    ensures
        placeholders(text_hi(Msg::Failure)) == seq!["error"@],
{
    reveal_strlit("error");
    reveal_strlit("विफल: {error}");
    let s = text_hi(Msg::Failure);
    assert(s.subrange(7, 12) =~= "error"@);
    reveal_with_fuel(scan_placeholders, 15);
    assert(placeholders(s) =~= seq!["error"@]);
}

proof fn lemma_placeholders_ar_failure()
    ensures
        placeholders(text_ar(Msg::Failure)) == seq!["error"@],
{
    reveal_strlit("error");
    reveal_strlit("فشل: {error}");
    let s = text_ar(Msg::Failure);
    assert(s.subrange(6, 11) =~= "error"@);
    reveal_with_fuel(scan_placeholders, 14);
    assert(placeholders(s) =~= seq!["error"@]);
}

proof fn lemma_placeholders_pt_failure()
    ensures
        placeholders(text_pt(Msg::Failure)) == seq!["error"@],
{
    reveal_strlit("error");
    reveal_strlit("Falha: {error}");
    let s = text_pt(Msg::Failure);
    assert(s.subrange(8, 13) =~= "error"@);
    reveal_with_fuel(scan_placeholders, 16);
    assert(placeholders(s) =~= seq!["error"@]);
}

proof fn lemma_placeholders_ru_failure()
    ensures
        placeholders(text_ru(Msg::Failure)) == seq!["error"@],
{
    reveal_strlit("error");
    reveal_strlit("Ошибка: {error}");
    let s = text_ru(Msg::Failure);
    assert(s.subrange(9, 14) =~= "error"@);
    reveal_with_fuel(scan_placeholders, 17);
    assert(placeholders(s) =~= seq!["error"@]);
}

proof fn lemma_placeholders_en_interrupted()
    ensures
        placeholders(text_en(Msg::Interrupted)) == Seq::<Seq<char>>::empty(),
{
    reveal_strlit("Operation interrupted");
    let s = text_en(Msg::Interrupted);
    reveal_with_fuel(scan_placeholders, 23);
    assert(placeholders(s) =~= Seq::<Seq<char>>::empty());
}

proof fn lemma_placeholders_zh_interrupted()
    ensures
        placeholders(text_zh(Msg::Interrupted)) == Seq::<Seq<char>>::empty(),
{
    reveal_strlit("操作已中断");
    let s = text_zh(Msg::Interrupted);
    reveal_with_fuel(scan_placeholders, 7);
    assert(placeholders(s) =~= Seq::<Seq<char>>::empty());
}

proof fn lemma_placeholders_es_interrupted()
    ensures
        placeholders(text_es(Msg::Interrupted)) == Seq::<Seq<char>>::empty(),
{
    reveal_strlit("Operación interrumpida");
    let s = text_es(Msg::Interrupted);
    reveal_with_fuel(scan_placeholders, 24);
    assert(placeholders(s) =~= Seq::<Seq<char>>::empty());
}

proof fn lemma_placeholders_hi_interrupted()
    ensures
        placeholders(text_hi(Msg::Interrupted)) == Seq::<Seq<char>>::empty(),
{
    reveal_strlit("ऑपरेशन बाधित");
    let s = text_hi(Msg::Interrupted);
    reveal_with_fuel(scan_placeholders, 14);
    assert(placeholders(s) =~= Seq::<Seq<char>>::empty());
}

proof fn lemma_placeholders_ar_interrupted()
    ensures
        placeholders(text_ar(Msg::Interrupted)) == Seq::<Seq<char>>::empty(),
{
    reveal_strlit("تم إيقاف العملية");
    let s = text_ar(Msg::Interrupted);
    reveal_with_fuel(scan_placeholders, 18);
    assert(placeholders(s) =~= Seq::<Seq<char>>::empty());
}

proof fn lemma_placeholders_pt_interrupted()
    ensures
        placeholders(text_pt(Msg::Interrupted)) == Seq::<Seq<char>>::empty(),
{
    reveal_strlit("Operação interrompida");
    let s = text_pt(Msg::Interrupted);
    reveal_with_fuel(scan_placeholders, 23);
    assert(placeholders(s) =~= Seq::<Seq<char>>::empty());
}

proof fn lemma_placeholders_ru_interrupted()
    ensures
        placeholders(text_ru(Msg::Interrupted)) == Seq::<Seq<char>>::empty(),
{
    reveal_strlit("Операция прервана");
    let s = text_ru(Msg::Interrupted);
    reveal_with_fuel(scan_placeholders, 19);
    assert(placeholders(s) =~= Seq::<Seq<char>>::empty());
}

proof fn lemma_placeholders_en_about()
    ensures
        placeholders(text_en(Msg::About)) == Seq::<Seq<char>>::empty(),
{
    reveal_strlit("About");
    let s = text_en(Msg::About);
    reveal_with_fuel(scan_placeholders, 7);
    assert(placeholders(s) =~= Seq::<Seq<char>>::empty());
}

proof fn lemma_placeholders_zh_about()
    ensures
        placeholders(text_zh(Msg::About)) == Seq::<Seq<char>>::empty(),
{
    reveal_strlit("关于");
    let s = text_zh(Msg::About);
    reveal_with_fuel(scan_placeholders, 4);
    assert(placeholders(s) =~= Seq::<Seq<char>>::empty());
}

proof fn lemma_placeholders_es_about()
    ensures
        placeholders(text_es(Msg::About)) == Seq::<Seq<char>>::empty(),
{
    reveal_strlit("Acerca de");
    let s = text_es(Msg::About);
    reveal_with_fuel(scan_placeholders, 11);
    assert(placeholders(s) =~= Seq::<Seq<char>>::empty());
}

proof fn lemma_placeholders_hi_about()
    ensures
        placeholders(text_hi(Msg::About)) == Seq::<Seq<char>>::empty(),
{
    reveal_strlit("परिचय");
    let s = text_hi(Msg::About);
    reveal_with_fuel(scan_placeholders, 7);
    assert(placeholders(s) =~= Seq::<Seq<char>>::empty());
}

proof fn lemma_placeholders_ar_about()
    ensures
        placeholders(text_ar(Msg::About)) == Seq::<Seq<char>>::empty(),
{
    reveal_strlit("حول");
    let s = text_ar(Msg::About);
    reveal_with_fuel(scan_placeholders, 5);
    assert(placeholders(s) =~= Seq::<Seq<char>>::empty());
}

proof fn lemma_placeholders_pt_about()
    ensures
        placeholders(text_pt(Msg::About)) == Seq::<Seq<char>>::empty(),
{
    reveal_strlit("Sobre");
    let s = text_pt(Msg::About);
    reveal_with_fuel(scan_placeholders, 7);
    assert(placeholders(s) =~= Seq::<Seq<char>>::empty());
}

proof fn lemma_placeholders_ru_about()
    ensures
        placeholders(text_ru(Msg::About)) == Seq::<Seq<char>>::empty(),
{
    reveal_strlit("О программе");
    let s = text_ru(Msg::About);
    reveal_with_fuel(scan_placeholders, 13);
    assert(placeholders(s) =~= Seq::<Seq<char>>::empty());
}

proof fn lemma_placeholders_en_about_desc()
    ensures
        placeholders(text_en(Msg::AboutDesc)) == Seq::<Seq<char>>::empty(),
{
    reveal_strlit("FindApps information");
    let s = text_en(Msg::AboutDesc);
    reveal_with_fuel(scan_placeholders, 22);
    assert(placeholders(s) =~= Seq::<Seq<char>>::empty());
}

proof fn lemma_placeholders_zh_about_desc()
    ensures
        placeholders(text_zh(Msg::AboutDesc)) == Seq::<Seq<char>>::empty(),
{
    reveal_strlit("FindApps 信息");
    let s = text_zh(Msg::AboutDesc);
    reveal_with_fuel(scan_placeholders, 13);
    assert(placeholders(s) =~= Seq::<Seq<char>>::empty());
}

proof fn lemma_placeholders_es_about_desc()
    ensures
        placeholders(text_es(Msg::AboutDesc)) == Seq::<Seq<char>>::empty(),
{
    reveal_strlit("Información de FindApps");
    let s = text_es(Msg::AboutDesc);
    reveal_with_fuel(scan_placeholders, 25);
    assert(placeholders(s) =~= Seq::<Seq<char>>::empty());
}

proof fn lemma_placeholders_hi_about_desc()
    ensures
        placeholders(text_hi(Msg::AboutDesc)) == Seq::<Seq<char>>::empty(),
{
    reveal_strlit("FindApps जानकारी");
    let s = text_hi(Msg::AboutDesc);
    reveal_with_fuel(scan_placeholders, 18);
    assert(placeholders(s) =~= Seq::<Seq<char>>::empty());
}

proof fn lemma_placeholders_ar_about_desc()
    ensures
        placeholders(text_ar(Msg::AboutDesc)) == Seq::<Seq<char>>::empty(),
{
    reveal_strlit("معلومات FindApps");
    let s = text_ar(Msg::AboutDesc);
    reveal_with_fuel(scan_placeholders, 18);
    assert(placeholders(s) =~= Seq::<Seq<char>>::empty());
}

proof fn lemma_placeholders_pt_about_desc()
    ensures
        placeholders(text_pt(Msg::AboutDesc)) == Seq::<Seq<char>>::empty(),
{
    reveal_strlit("Informações do FindApps");
    let s = text_pt(Msg::AboutDesc);
    reveal_with_fuel(scan_placeholders, 25);
    assert(placeholders(s) =~= Seq::<Seq<char>>::empty());
}

proof fn lemma_placeholders_ru_about_desc()
    ensures
        placeholders(text_ru(Msg::AboutDesc)) == Seq::<Seq<char>>::empty(),
{
    reveal_strlit("Сведения о FindApps");
    let s = text_ru(Msg::AboutDesc);
    reveal_with_fuel(scan_placeholders, 21);
    assert(placeholders(s) =~= Seq::<Seq<char>>::empty());
}

proof fn lemma_placeholders_en_identifier()
    ensures
        placeholders(text_en(Msg::Identifier)) == Seq::<Seq<char>>::empty(),
{
    reveal_strlit("Identifier");
    let s = text_en(Msg::Identifier);
    reveal_with_fuel(scan_placeholders, 12);
    assert(placeholders(s) =~= Seq::<Seq<char>>::empty());
}

proof fn lemma_placeholders_zh_identifier()
    ensures
        placeholders(text_zh(Msg::Identifier)) == Seq::<Seq<char>>::empty(),
{
    reveal_strlit("标识符");
    let s = text_zh(Msg::Identifier);
    reveal_with_fuel(scan_placeholders, 5);
    assert(placeholders(s) =~= Seq::<Seq<char>>::empty());
}

proof fn lemma_placeholders_es_identifier()
    ensures
        placeholders(text_es(Msg::Identifier)) == Seq::<Seq<char>>::empty(),
{
    reveal_strlit("Identificador");
    let s = text_es(Msg::Identifier);
    reveal_with_fuel(scan_placeholders, 15);
    assert(placeholders(s) =~= Seq::<Seq<char>>::empty());
}

proof fn lemma_placeholders_hi_identifier()
    ensures
        placeholders(text_hi(Msg::Identifier)) == Seq::<Seq<char>>::empty(),
{
    reveal_strlit("पहचानकर्ता");
    let s = text_hi(Msg::Identifier);
    reveal_with_fuel(scan_placeholders, 12);
    assert(placeholders(s) =~= Seq::<Seq<char>>::empty());
}

proof fn lemma_placeholders_ar_identifier()
    ensures
        placeholders(text_ar(Msg::Identifier)) == Seq::<Seq<char>>::empty(),
{
    reveal_strlit("المعرّف");
    let s = text_ar(Msg::Identifier);
    reveal_with_fuel(scan_placeholders, 9);
    assert(placeholders(s) =~= Seq::<Seq<char>>::empty());
}

proof fn lemma_placeholders_pt_identifier()
    ensures
        placeholders(text_pt(Msg::Identifier)) == Seq::<Seq<char>>::empty(),
{
    reveal_strlit("Identificador");
    let s = text_pt(Msg::Identifier);
    reveal_with_fuel(scan_placeholders, 15);
    assert(placeholders(s) =~= Seq::<Seq<char>>::empty());
}

proof fn lemma_placeholders_ru_identifier()
    ensures
        placeholders(text_ru(Msg::Identifier)) == Seq::<Seq<char>>::empty(),
{
    reveal_strlit("Идентификатор");
    let s = text_ru(Msg::Identifier);
    reveal_with_fuel(scan_placeholders, 15);
    assert(placeholders(s) =~= Seq::<Seq<char>>::empty());
}

proof fn lemma_placeholders_en_license()
    ensures
        placeholders(text_en(Msg::License)) == Seq::<Seq<char>>::empty(),
{
    reveal_strlit("License");
    let s = text_en(Msg::License);
    reveal_with_fuel(scan_placeholders, 9);
    assert(placeholders(s) =~= Seq::<Seq<char>>::empty());
}

proof fn lemma_placeholders_zh_license()
    ensures
        placeholders(text_zh(Msg::License)) == Seq::<Seq<char>>::empty(),
{
    reveal_strlit("许可证");
    let s = text_zh(Msg::License);
    reveal_with_fuel(scan_placeholders, 5);
    assert(placeholders(s) =~= Seq::<Seq<char>>::empty());
}

proof fn lemma_placeholders_es_license()
    ensures
        placeholders(text_es(Msg::License)) == Seq::<Seq<char>>::empty(),
{
    reveal_strlit("Licencia");
    let s = text_es(Msg::License);
    reveal_with_fuel(scan_placeholders, 10);
    assert(placeholders(s) =~= Seq::<Seq<char>>::empty());
}

proof fn lemma_placeholders_hi_license()
    ensures
        placeholders(text_hi(Msg::License)) == Seq::<Seq<char>>::empty(),
{
    reveal_strlit("लाइसेंस");
    let s = text_hi(Msg::License);
    reveal_with_fuel(scan_placeholders, 9);
    assert(placeholders(s) =~= Seq::<Seq<char>>::empty());
}

proof fn lemma_placeholders_ar_license()
    ensures
        placeholders(text_ar(Msg::License)) == Seq::<Seq<char>>::empty(),
{
    reveal_strlit("الترخيص");
    let s = text_ar(Msg::License);
    reveal_with_fuel(scan_placeholders, 9);
    assert(placeholders(s) =~= Seq::<Seq<char>>::empty());
}

proof fn lemma_placeholders_pt_license()
    ensures
        placeholders(text_pt(Msg::License)) == Seq::<Seq<char>>::empty(),
{
    reveal_strlit("Licença");
    let s = text_pt(Msg::License);
    reveal_with_fuel(scan_placeholders, 9);
    assert(placeholders(s) =~= Seq::<Seq<char>>::empty());
}

proof fn lemma_placeholders_ru_license()
    ensures
        placeholders(text_ru(Msg::License)) == Seq::<Seq<char>>::empty(),
{
    reveal_strlit("Лицензия");
    let s = text_ru(Msg::License);
    reveal_with_fuel(scan_placeholders, 10);
    assert(placeholders(s) =~= Seq::<Seq<char>>::empty());
}

proof fn lemma_placeholders_en_language()
    ensures
        placeholders(text_en(Msg::Language)) == Seq::<Seq<char>>::empty(),
{
    reveal_strlit("Language");
    let s = text_en(Msg::Language);
    reveal_with_fuel(scan_placeholders, 10);
    assert(placeholders(s) =~= Seq::<Seq<char>>::empty());
}

proof fn lemma_placeholders_zh_language()
    ensures
        placeholders(text_zh(Msg::Language)) == Seq::<Seq<char>>::empty(),
{
    reveal_strlit("语言");
    let s = text_zh(Msg::Language);
    reveal_with_fuel(scan_placeholders, 4);
    assert(placeholders(s) =~= Seq::<Seq<char>>::empty());
}

proof fn lemma_placeholders_es_language()
    ensures
        placeholders(text_es(Msg::Language)) == Seq::<Seq<char>>::empty(),
{
    reveal_strlit("Idioma");
    let s = text_es(Msg::Language);
    reveal_with_fuel(scan_placeholders, 8);
    assert(placeholders(s) =~= Seq::<Seq<char>>::empty());
}

proof fn lemma_placeholders_hi_language()
    ensures
        placeholders(text_hi(Msg::Language)) == Seq::<Seq<char>>::empty(),
{
    reveal_strlit("भाषा");
    let s = text_hi(Msg::Language);
    reveal_with_fuel(scan_placeholders, 6);
    assert(placeholders(s) =~= Seq::<Seq<char>>::empty());
}

proof fn lemma_placeholders_ar_language()
    ensures
        placeholders(text_ar(Msg::Language)) == Seq::<Seq<char>>::empty(),
{
    reveal_strlit("اللغة");
    let s = text_ar(Msg::Language);
    reveal_with_fuel(scan_placeholders, 7);
    assert(placeholders(s) =~= Seq::<Seq<char>>::empty());
}

proof fn lemma_placeholders_pt_language()
    ensures
        placeholders(text_pt(Msg::Language)) == Seq::<Seq<char>>::empty(),
{
    reveal_strlit("Idioma");
    let s = text_pt(Msg::Language);
    reveal_with_fuel(scan_placeholders, 8);
    assert(placeholders(s) =~= Seq::<Seq<char>>::empty());
}

proof fn lemma_placeholders_ru_language()
    ensures
        placeholders(text_ru(Msg::Language)) == Seq::<Seq<char>>::empty(),
{
    reveal_strlit("Язык");
    let s = text_ru(Msg::Language);
    reveal_with_fuel(scan_placeholders, 6);
    assert(placeholders(s) =~= Seq::<Seq<char>>::empty());
}

proof fn lemma_placeholders_en_language_desc()
    ensures
        placeholders(text_en(Msg::LanguageDesc)) == Seq::<Seq<char>>::empty(),
{
    reveal_strlit("Interface language");
    let s = text_en(Msg::LanguageDesc);
    reveal_with_fuel(scan_placeholders, 20);
    assert(placeholders(s) =~= Seq::<Seq<char>>::empty());
}

proof fn lemma_placeholders_zh_language_desc()
    ensures
        placeholders(text_zh(Msg::LanguageDesc)) == Seq::<Seq<char>>::empty(),
{
    reveal_strlit("界面语言");
    let s = text_zh(Msg::LanguageDesc);
    reveal_with_fuel(scan_placeholders, 6);
    assert(placeholders(s) =~= Seq::<Seq<char>>::empty());
}

proof fn lemma_placeholders_es_language_desc()
    ensures
        placeholders(text_es(Msg::LanguageDesc)) == Seq::<Seq<char>>::empty(),
{
    reveal_strlit("Idioma de la interfaz");
    let s = text_es(Msg::LanguageDesc);
    reveal_with_fuel(scan_placeholders, 23);
    assert(placeholders(s) =~= Seq::<Seq<char>>::empty());
}

proof fn lemma_placeholders_hi_language_desc()
    ensures
        placeholders(text_hi(Msg::LanguageDesc)) == Seq::<Seq<char>>::empty(),
{
    reveal_strlit("इंटरफ़ेस भाषा");
    let s = text_hi(Msg::LanguageDesc);
    reveal_with_fuel(scan_placeholders, 15);
    assert(placeholders(s) =~= Seq::<Seq<char>>::empty());
}

proof fn lemma_placeholders_ar_language_desc()
    ensures
        placeholders(text_ar(Msg::LanguageDesc)) == Seq::<Seq<char>>::empty(),
{
    reveal_strlit("لغة الواجهة");
    let s = text_ar(Msg::LanguageDesc);
    reveal_with_fuel(scan_placeholders, 13);
    assert(placeholders(s) =~= Seq::<Seq<char>>::empty());
}

proof fn lemma_placeholders_pt_language_desc()
    ensures
        placeholders(text_pt(Msg::LanguageDesc)) == Seq::<Seq<char>>::empty(),
{
    reveal_strlit("Idioma da interface");
    let s = text_pt(Msg::LanguageDesc);
    reveal_with_fuel(scan_placeholders, 21);
    assert(placeholders(s) =~= Seq::<Seq<char>>::empty());
}

proof fn lemma_placeholders_ru_language_desc()
    ensures
        placeholders(text_ru(Msg::LanguageDesc)) == Seq::<Seq<char>>::empty(),
{
    reveal_strlit("Язык интерфейса");
    let s = text_ru(Msg::LanguageDesc);
    reveal_with_fuel(scan_placeholders, 17);
    assert(placeholders(s) =~= Seq::<Seq<char>>::empty());
}

proof fn lemma_placeholders_en_language_updated()
    ensures
        placeholders(text_en(Msg::LanguageUpdated)) == Seq::<Seq<char>>::empty(),
{
    reveal_strlit("Language updated");
    let s = text_en(Msg::LanguageUpdated);
    reveal_with_fuel(scan_placeholders, 18);
    assert(placeholders(s) =~= Seq::<Seq<char>>::empty());
}

proof fn lemma_placeholders_zh_language_updated()
    ensures
        placeholders(text_zh(Msg::LanguageUpdated)) == Seq::<Seq<char>>::empty(),
{
    reveal_strlit("语言已更新");
    let s = text_zh(Msg::LanguageUpdated);
    reveal_with_fuel(scan_placeholders, 7);
    assert(placeholders(s) =~= Seq::<Seq<char>>::empty());
}

proof fn lemma_placeholders_es_language_updated()
    ensures
        placeholders(text_es(Msg::LanguageUpdated)) == Seq::<Seq<char>>::empty(),
{
    reveal_strlit("Idioma actualizado");
    let s = text_es(Msg::LanguageUpdated);
    reveal_with_fuel(scan_placeholders, 20);
    assert(placeholders(s) =~= Seq::<Seq<char>>::empty());
}

proof fn lemma_placeholders_hi_language_updated()
    ensures
        placeholders(text_hi(Msg::LanguageUpdated)) == Seq::<Seq<char>>::empty(),
{
    reveal_strlit("भाषा अपडेट हो गई");
    let s = text_hi(Msg::LanguageUpdated);
    reveal_with_fuel(scan_placeholders, 18);
    assert(placeholders(s) =~= Seq::<Seq<char>>::empty());
}

proof fn lemma_placeholders_ar_language_updated()
    ensures
        placeholders(text_ar(Msg::LanguageUpdated)) == Seq::<Seq<char>>::empty(),
{
    reveal_strlit("تم تحديث اللغة");
    let s = text_ar(Msg::LanguageUpdated);
    reveal_with_fuel(scan_placeholders, 16);
    assert(placeholders(s) =~= Seq::<Seq<char>>::empty());
}

proof fn lemma_placeholders_pt_language_updated()
    ensures
        placeholders(text_pt(Msg::LanguageUpdated)) == Seq::<Seq<char>>::empty(),
{
    reveal_strlit("Idioma atualizado");
    let s = text_pt(Msg::LanguageUpdated);
    reveal_with_fuel(scan_placeholders, 19);
    assert(placeholders(s) =~= Seq::<Seq<char>>::empty());
}

proof fn lemma_placeholders_ru_language_updated()
    ensures
        placeholders(text_ru(Msg::LanguageUpdated)) == Seq::<Seq<char>>::empty(),
{
    reveal_strlit("Язык обновлён");
    let s = text_ru(Msg::LanguageUpdated);
    reveal_with_fuel(scan_placeholders, 15);
    assert(placeholders(s) =~= Seq::<Seq<char>>::empty());
}

proof fn lemma_placeholders_en_tagline()
    ensures
        placeholders(text_en(Msg::Tagline)) == Seq::<Seq<char>>::empty(),
{
    reveal_strlit("Universal Linux application manager");
    let s = text_en(Msg::Tagline);
    reveal_with_fuel(scan_placeholders, 37);
    assert(placeholders(s) =~= Seq::<Seq<char>>::empty());
}

proof fn lemma_placeholders_zh_tagline()
    ensures
        placeholders(text_zh(Msg::Tagline)) == Seq::<Seq<char>>::empty(),
{
    reveal_strlit("通用 Linux 应用管理器");
    let s = text_zh(Msg::Tagline);
    reveal_with_fuel(scan_placeholders, 16);
    assert(placeholders(s) =~= Seq::<Seq<char>>::empty());
}

proof fn lemma_placeholders_es_tagline()
    ensures
        placeholders(text_es(Msg::Tagline)) == Seq::<Seq<char>>::empty(),
{
    reveal_strlit("Gestor universal de aplicaciones Linux");
    let s = text_es(Msg::Tagline);
    reveal_with_fuel(scan_placeholders, 40);
    assert(placeholders(s) =~= Seq::<Seq<char>>::empty());
}

proof fn lemma_placeholders_hi_tagline()
    ensures
        placeholders(text_hi(Msg::Tagline)) == Seq::<Seq<char>>::empty(),
{
    reveal_strlit("यूनिवर्सल Linux ऐप मैनेजर");
    let s = text_hi(Msg::Tagline);
    reveal_with_fuel(scan_placeholders, 27);
    assert(placeholders(s) =~= Seq::<Seq<char>>::empty());
}

proof fn lemma_placeholders_ar_tagline()
    ensures
        placeholders(text_ar(Msg::Tagline)) == Seq::<Seq<char>>::empty(),
{
    reveal_strlit("مدير تطبيقات لينكس الشامل");
    let s = text_ar(Msg::Tagline);
    reveal_with_fuel(scan_placeholders, 27);
    assert(placeholders(s) =~= Seq::<Seq<char>>::empty());
}

proof fn lemma_placeholders_pt_tagline()
    ensures
        placeholders(text_pt(Msg::Tagline)) == Seq::<Seq<char>>::empty(),
{
    reveal_strlit("Gerenciador universal de aplicativos Linux");
    let s = text_pt(Msg::Tagline);
    reveal_with_fuel(scan_placeholders, 44);
    assert(placeholders(s) =~= Seq::<Seq<char>>::empty());
}

proof fn lemma_placeholders_ru_tagline()
    ensures
        placeholders(text_ru(Msg::Tagline)) == Seq::<Seq<char>>::empty(),
{
    reveal_strlit("Универсальный менеджер приложений Linux");
    let s = text_ru(Msg::Tagline);
    reveal_with_fuel(scan_placeholders, 41);
    assert(placeholders(s) =~= Seq::<Seq<char>>::empty());
}

proof fn lemma_placeholders_en_about_body()
    ensures
        placeholders(text_en(Msg::AboutBody)) == Seq::<Seq<char>>::empty(),
{
    reveal_strlit("FindApps detects and organizes programs installed on your system, \
regardless of how they were installed — APT, DNF, Flatpak, Snap, AppImage, \
or manual installation.\n\n\
With a simple interface, you can search, filter, view details, and \
uninstall apps safely — without using the terminal.\n\n\
Installing and updating packages is planned for future versions.");
    let s = text_en(Msg::AboutBody);
    assert(scan_placeholders(s, 0, -1) == scan_placeholders(s, 60, -1)) by {
        reveal_with_fuel(scan_placeholders, 62);
    }
    assert(scan_placeholders(s, 60, -1) == scan_placeholders(s, 120, -1)) by {
        reveal_with_fuel(scan_placeholders, 62);
    }
    assert(scan_placeholders(s, 120, -1) == scan_placeholders(s, 180, -1)) by {
        reveal_with_fuel(scan_placeholders, 62);
    }
    assert(scan_placeholders(s, 180, -1) == scan_placeholders(s, 240, -1)) by {
        reveal_with_fuel(scan_placeholders, 62);
    }
    assert(scan_placeholders(s, 240, -1) == scan_placeholders(s, 300, -1)) by {
        reveal_with_fuel(scan_placeholders, 62);
    }
    assert(scan_placeholders(s, 300, -1) =~= Seq::<Seq<char>>::empty()) by {
        reveal_with_fuel(scan_placeholders, 52);
    }
}

proof fn lemma_placeholders_zh_about_body()
    ensures
        placeholders(text_zh(Msg::AboutBody)) == Seq::<Seq<char>>::empty(),
{
    reveal_strlit("FindApps 可检测并整理系统中已安装的程序，\
无论通过 APT、DNF、Flatpak、Snap、AppImage 还是手动安装。\n\n\
界面简洁，可搜索、筛选、查看详情并安全卸载应用，无需使用终端。\n\n\
安装与更新功能将在后续版本中提供。");
    let s = text_zh(Msg::AboutBody);
    assert(scan_placeholders(s, 0, -1) == scan_placeholders(s, 60, -1)) by {
        reveal_with_fuel(scan_placeholders, 62);
    }
    assert(scan_placeholders(s, 60, -1) =~= Seq::<Seq<char>>::empty()) by {
        reveal_with_fuel(scan_placeholders, 61);
    }
}

proof fn lemma_placeholders_es_about_body()
    ensures
        placeholders(text_es(Msg::AboutBody)) == Seq::<Seq<char>>::empty(),
{
    reveal_strlit("FindApps detecta y organiza los programas instalados en tu sistema, \
sin importar el método — APT, DNF, Flatpak, Snap, AppImage o instalación manual.\n\n\
Con una interfaz simple puedes buscar, filtrar, ver detalles y \
desinstalar de forma segura, sin usar la terminal.\n\n\
La instalación y actualización de paquetes están previstas para versiones futuras.");
    let s = text_es(Msg::AboutBody);
    assert(scan_placeholders(s, 0, -1) == scan_placeholders(s, 60, -1)) by {
        reveal_with_fuel(scan_placeholders, 62);
    }
    assert(scan_placeholders(s, 60, -1) == scan_placeholders(s, 120, -1)) by {
        reveal_with_fuel(scan_placeholders, 62);
    }
    assert(scan_placeholders(s, 120, -1) == scan_placeholders(s, 180, -1)) by {
        reveal_with_fuel(scan_placeholders, 62);
    }
    assert(scan_placeholders(s, 180, -1) == scan_placeholders(s, 240, -1)) by {
        reveal_with_fuel(scan_placeholders, 62);
    }
    assert(scan_placeholders(s, 240, -1) == scan_placeholders(s, 300, -1)) by {
        reveal_with_fuel(scan_placeholders, 62);
    }
    assert(scan_placeholders(s, 300, -1) =~= Seq::<Seq<char>>::empty()) by {
        reveal_with_fuel(scan_placeholders, 49);
    }
}

proof fn lemma_placeholders_hi_about_body()
    ensures
        placeholders(text_hi(Msg::AboutBody)) == Seq::<Seq<char>>::empty(),
{
    reveal_strlit("FindApps आपके सिस्टम पर इंस्टॉल प्रोग्रामों का पता लगाता और व्यवस्थित करता है — \
APT, DNF, Flatpak, Snap, AppImage या मैन्युअल इंस्टॉल से।\n\n\
सरल इंटरफ़ेस से आप खोज, फ़िल्टर, विवरण देख और सुरक्षित रूप से अनइंस्टॉल कर सकते हैं, \
टर्मिनल की आवश्यकता के बिना।\n\n\
इंस्टॉल और अपडेट भविष्य के संस्करणों में आएंगे।");
    let s = text_hi(Msg::AboutBody);
    assert(scan_placeholders(s, 0, -1) == scan_placeholders(s, 60, -1)) by {
        reveal_with_fuel(scan_placeholders, 62);
    }
    assert(scan_placeholders(s, 60, -1) == scan_placeholders(s, 120, -1)) by {
        reveal_with_fuel(scan_placeholders, 62);
    }
    assert(scan_placeholders(s, 120, -1) == scan_placeholders(s, 180, -1)) by {
        reveal_with_fuel(scan_placeholders, 62);
    }
    assert(scan_placeholders(s, 180, -1) == scan_placeholders(s, 240, -1)) by {
        reveal_with_fuel(scan_placeholders, 62);
    }
    assert(scan_placeholders(s, 240, -1) == scan_placeholders(s, 300, -1)) by {
        reveal_with_fuel(scan_placeholders, 62);
    }
    assert(scan_placeholders(s, 300, -1) =~= Seq::<Seq<char>>::empty()) by {
        reveal_with_fuel(scan_placeholders, 3);
    }
}

proof fn lemma_placeholders_ar_about_body()
    ensures
        placeholders(text_ar(Msg::AboutBody)) == Seq::<Seq<char>>::empty(),
{
    reveal_strlit("يكتشف FindApps وينظّم البرامج المثبتة على نظامك، \
بغض النظر عن طريقة التثبيت — APT أو DNF أو Flatpak أو Snap أو AppImage أو التثبيت اليدوي.\n\n\
بواجهة بسيطة يمكنك البحث والتصفية وعرض التفاصيل وإلغاء التثبيت بأمان دون الطرفية.\n\n\
التثبيت والتحديث مخططان للإصدارات القادمة.");
    let s = text_ar(Msg::AboutBody);
    assert(scan_placeholders(s, 0, -1) == scan_placeholders(s, 60, -1)) by {
        reveal_with_fuel(scan_placeholders, 62);
    }
    assert(scan_placeholders(s, 60, -1) == scan_placeholders(s, 120, -1)) by {
        reveal_with_fuel(scan_placeholders, 62);
    }
    assert(scan_placeholders(s, 120, -1) == scan_placeholders(s, 180, -1)) by {
        reveal_with_fuel(scan_placeholders, 62);
    }
    assert(scan_placeholders(s, 180, -1) == scan_placeholders(s, 240, -1)) by {
        reveal_with_fuel(scan_placeholders, 62);
    }
    assert(scan_placeholders(s, 240, -1) =~= Seq::<Seq<char>>::empty()) by {
        reveal_with_fuel(scan_placeholders, 27);
    }
}

proof fn lemma_placeholders_pt_about_body()
    ensures
        placeholders(text_pt(Msg::AboutBody)) == Seq::<Seq<char>>::empty(),
{
    reveal_strlit("O FindApps detecta e organiza programas instalados no seu sistema, \
independentemente do método de instalação — APT, DNF, Flatpak, Snap, AppImage \
ou instalação manual.\n\n\
Com uma interface simples, você pode pesquisar, filtrar, ver detalhes e \
desinstalar aplicativos com segurança, sem precisar usar o terminal.\n\n\
A instalação e as atualizações de pacotes estão previstas para versões futuras.");
    let s = text_pt(Msg::AboutBody);
    assert(scan_placeholders(s, 0, -1) == scan_placeholders(s, 60, -1)) by {
        reveal_with_fuel(scan_placeholders, 62);
    }
    assert(scan_placeholders(s, 60, -1) == scan_placeholders(s, 120, -1)) by {
        reveal_with_fuel(scan_placeholders, 62);
    }
    assert(scan_placeholders(s, 120, -1) == scan_placeholders(s, 180, -1)) by {
        reveal_with_fuel(scan_placeholders, 62);
    }
    assert(scan_placeholders(s, 180, -1) == scan_placeholders(s, 240, -1)) by {
        reveal_with_fuel(scan_placeholders, 62);
    }
    assert(scan_placeholders(s, 240, -1) == scan_placeholders(s, 300, -1)) by {
        reveal_with_fuel(scan_placeholders, 62);
    }
    assert(scan_placeholders(s, 300, -1) == scan_placeholders(s, 360, -1)) by {
        reveal_with_fuel(scan_placeholders, 62);
    }
    assert(scan_placeholders(s, 360, -1) =~= Seq::<Seq<char>>::empty()) by {
        reveal_with_fuel(scan_placeholders, 31);
    }
}

proof fn lemma_placeholders_ru_about_body()
    ensures
        placeholders(text_ru(Msg::AboutBody)) == Seq::<Seq<char>>::empty(),
{
    reveal_strlit("FindApps обнаруживает и упорядочивает программы, установленные в системе, \
независимо от способа — APT, DNF, Flatpak, Snap, AppImage или ручная установка.\n\n\
В простом интерфейсе можно искать, фильтровать, смотреть сведения и \
безопасно удалять приложения без терминала.\n\n\
Установка и обновление пакетов запланированы в будущих версиях.");
    let s = text_ru(Msg::AboutBody);
    assert(scan_placeholders(s, 0, -1) == scan_placeholders(s, 60, -1)) by {
        reveal_with_fuel(scan_placeholders, 62);
    }
    assert(scan_placeholders(s, 60, -1) == scan_placeholders(s, 120, -1)) by {
        reveal_with_fuel(scan_placeholders, 62);
    }
    assert(scan_placeholders(s, 120, -1) == scan_placeholders(s, 180, -1)) by {
        reveal_with_fuel(scan_placeholders, 62);
    }
    assert(scan_placeholders(s, 180, -1) == scan_placeholders(s, 240, -1)) by {
        reveal_with_fuel(scan_placeholders, 62);
    }
    assert(scan_placeholders(s, 240, -1) == scan_placeholders(s, 300, -1)) by {
        reveal_with_fuel(scan_placeholders, 62);
    }
    assert(scan_placeholders(s, 300, -1) =~= Seq::<Seq<char>>::empty()) by {
        reveal_with_fuel(scan_placeholders, 33);
    }
}

proof fn lemma_placeholders_en_about_features()
    ensures
        placeholders(text_en(Msg::AboutFeatures)) == Seq::<Seq<char>>::empty(),
{
    reveal_strlit("Backends · Search · Filters · Details · Safe uninstall");
    let s = text_en(Msg::AboutFeatures);
    reveal_with_fuel(scan_placeholders, 56);
    assert(placeholders(s) =~= Seq::<Seq<char>>::empty());
}

proof fn lemma_placeholders_zh_about_features()
    ensures
        placeholders(text_zh(Msg::AboutFeatures)) == Seq::<Seq<char>>::empty(),
{
    reveal_strlit("后端 · 搜索 · 筛选 · 详情 · 安全卸载");
    let s = text_zh(Msg::AboutFeatures);
    reveal_with_fuel(scan_placeholders, 26);
    assert(placeholders(s) =~= Seq::<Seq<char>>::empty());
}

proof fn lemma_placeholders_es_about_features()
    ensures
        placeholders(text_es(Msg::AboutFeatures)) == Seq::<Seq<char>>::empty(),
{
    reveal_strlit("Backends · Búsqueda · Filtros · Detalles · Desinstalación segura");
    let s = text_es(Msg::AboutFeatures);
    reveal_with_fuel(scan_placeholders, 66);
    assert(placeholders(s) =~= Seq::<Seq<char>>::empty());
}

proof fn lemma_placeholders_hi_about_features()
    ensures
        placeholders(text_hi(Msg::AboutFeatures)) == Seq::<Seq<char>>::empty(),
{
    reveal_strlit("बैकएंड · खोज · फ़िल्टर · विवरण · सुरक्षित अनइंस्टॉल");
    let s = text_hi(Msg::AboutFeatures);
    reveal_with_fuel(scan_placeholders, 53);
    assert(placeholders(s) =~= Seq::<Seq<char>>::empty());
}

proof fn lemma_placeholders_ar_about_features()
    ensures
        placeholders(text_ar(Msg::AboutFeatures)) == Seq::<Seq<char>>::empty(),
{
    reveal_strlit("الخوادم · البحث · التصفية · التفاصيل · إلغاء تثبيت آمن");
    let s = text_ar(Msg::AboutFeatures);
    reveal_with_fuel(scan_placeholders, 56);
    assert(placeholders(s) =~= Seq::<Seq<char>>::empty());
}

proof fn lemma_placeholders_pt_about_features()
    ensures
        placeholders(text_pt(Msg::AboutFeatures)) == Seq::<Seq<char>>::empty(),
{
    reveal_strlit("Backends · Pesquisa · Filtros · Detalhes · Desinstalação segura");
    let s = text_pt(Msg::AboutFeatures);
    reveal_with_fuel(scan_placeholders, 65);
    assert(placeholders(s) =~= Seq::<Seq<char>>::empty());
}

proof fn lemma_placeholders_ru_about_features()
    ensures
        placeholders(text_ru(Msg::AboutFeatures)) == Seq::<Seq<char>>::empty(),
{
    reveal_strlit("Бэкенды · Поиск · Фильтры · Сведения · Безопасное удаление");
    let s = text_ru(Msg::AboutFeatures);
    reveal_with_fuel(scan_placeholders, 60);
    assert(placeholders(s) =~= Seq::<Seq<char>>::empty());
}

proof fn lemma_placeholders_en_status_installed()
    ensures
        placeholders(text_en(Msg::StatusInstalled)) == Seq::<Seq<char>>::empty(),
{
    reveal_strlit("Installed");
    let s = text_en(Msg::StatusInstalled);
    reveal_with_fuel(scan_placeholders, 11);
    assert(placeholders(s) =~= Seq::<Seq<char>>::empty());
}

proof fn lemma_placeholders_zh_status_installed()
    ensures
        placeholders(text_zh(Msg::StatusInstalled)) == Seq::<Seq<char>>::empty(),
{
    reveal_strlit("已安装");
    let s = text_zh(Msg::StatusInstalled);
    reveal_with_fuel(scan_placeholders, 5);
    assert(placeholders(s) =~= Seq::<Seq<char>>::empty());
}

proof fn lemma_placeholders_es_status_installed()
    ensures
        placeholders(text_es(Msg::StatusInstalled)) == Seq::<Seq<char>>::empty(),
{
    reveal_strlit("Instalada");
    let s = text_es(Msg::StatusInstalled);
    reveal_with_fuel(scan_placeholders, 11);
    assert(placeholders(s) =~= Seq::<Seq<char>>::empty());
}

proof fn lemma_placeholders_hi_status_installed()
    ensures
        placeholders(text_hi(Msg::StatusInstalled)) == Seq::<Seq<char>>::empty(),
{
    reveal_strlit("इंस्टॉल");
    let s = text_hi(Msg::StatusInstalled);
    reveal_with_fuel(scan_placeholders, 9);
    assert(placeholders(s) =~= Seq::<Seq<char>>::empty());
}

proof fn lemma_placeholders_ar_status_installed()
    ensures
        placeholders(text_ar(Msg::StatusInstalled)) == Seq::<Seq<char>>::empty(),
{
    reveal_strlit("مثبت");
    let s = text_ar(Msg::StatusInstalled);
    reveal_with_fuel(scan_placeholders, 6);
    assert(placeholders(s) =~= Seq::<Seq<char>>::empty());
}

proof fn lemma_placeholders_pt_status_installed()
    ensures
        placeholders(text_pt(Msg::StatusInstalled)) == Seq::<Seq<char>>::empty(),
{
    reveal_strlit("Instalado");
    let s = text_pt(Msg::StatusInstalled);
    reveal_with_fuel(scan_placeholders, 11);
    assert(placeholders(s) =~= Seq::<Seq<char>>::empty());
}

proof fn lemma_placeholders_ru_status_installed()
    ensures
        placeholders(text_ru(Msg::StatusInstalled)) == Seq::<Seq<char>>::empty(),
{
    reveal_strlit("Установлено");
    let s = text_ru(Msg::StatusInstalled);
    reveal_with_fuel(scan_placeholders, 13);
    assert(placeholders(s) =~= Seq::<Seq<char>>::empty());
}

proof fn lemma_placeholders_en_status_update()
    ensures
        placeholders(text_en(Msg::StatusUpdate)) == Seq::<Seq<char>>::empty(),
{
    reveal_strlit("Update available");
    let s = text_en(Msg::StatusUpdate);
    reveal_with_fuel(scan_placeholders, 18);
    assert(placeholders(s) =~= Seq::<Seq<char>>::empty());
}

proof fn lemma_placeholders_zh_status_update()
    ensures
        placeholders(text_zh(Msg::StatusUpdate)) == Seq::<Seq<char>>::empty(),
{
    reveal_strlit("有可用更新");
    let s = text_zh(Msg::StatusUpdate);
    reveal_with_fuel(scan_placeholders, 7);
    assert(placeholders(s) =~= Seq::<Seq<char>>::empty());
}

proof fn lemma_placeholders_es_status_update()
    ensures
        placeholders(text_es(Msg::StatusUpdate)) == Seq::<Seq<char>>::empty(),
{
    reveal_strlit("Actualización disponible");
    let s = text_es(Msg::StatusUpdate);
    reveal_with_fuel(scan_placeholders, 26);
    assert(placeholders(s) =~= Seq::<Seq<char>>::empty());
}

proof fn lemma_placeholders_hi_status_update()
    ensures
        placeholders(text_hi(Msg::StatusUpdate)) == Seq::<Seq<char>>::empty(),
{
    reveal_strlit("अपडेट उपलब्ध");
    let s = text_hi(Msg::StatusUpdate);
    reveal_with_fuel(scan_placeholders, 14);
    assert(placeholders(s) =~= Seq::<Seq<char>>::empty());
}

proof fn lemma_placeholders_ar_status_update()
    ensures
        placeholders(text_ar(Msg::StatusUpdate)) == Seq::<Seq<char>>::empty(),
{
    reveal_strlit("يتوفر تحديث");
    let s = text_ar(Msg::StatusUpdate);
    reveal_with_fuel(scan_placeholders, 13);
    assert(placeholders(s) =~= Seq::<Seq<char>>::empty());
}

proof fn lemma_placeholders_pt_status_update()
    ensures
        placeholders(text_pt(Msg::StatusUpdate)) == Seq::<Seq<char>>::empty(),
{
    reveal_strlit("Atualização disponível");
    let s = text_pt(Msg::StatusUpdate);
    reveal_with_fuel(scan_placeholders, 24);
    assert(placeholders(s) =~= Seq::<Seq<char>>::empty());
}

proof fn lemma_placeholders_ru_status_update()
    ensures
        placeholders(text_ru(Msg::StatusUpdate)) == Seq::<Seq<char>>::empty(),
{
    reveal_strlit("Доступно обновление");
    let s = text_ru(Msg::StatusUpdate);
    reveal_with_fuel(scan_placeholders, 21);
    assert(placeholders(s) =~= Seq::<Seq<char>>::empty());
}

proof fn lemma_placeholders_en_status_broken()
    ensures
        placeholders(text_en(Msg::StatusBroken)) == Seq::<Seq<char>>::empty(),
{
    reveal_strlit("Broken");
    let s = text_en(Msg::StatusBroken);
    reveal_with_fuel(scan_placeholders, 8);
    assert(placeholders(s) =~= Seq::<Seq<char>>::empty());
}

proof fn lemma_placeholders_zh_status_broken()
    ensures
        placeholders(text_zh(Msg::StatusBroken)) == Seq::<Seq<char>>::empty(),
{
    reveal_strlit("已损坏");
    let s = text_zh(Msg::StatusBroken);
    reveal_with_fuel(scan_placeholders, 5);
    assert(placeholders(s) =~= Seq::<Seq<char>>::empty());
}

proof fn lemma_placeholders_es_status_broken()
    ensures
        placeholders(text_es(Msg::StatusBroken)) == Seq::<Seq<char>>::empty(),
{
    reveal_strlit("Rota");
    let s = text_es(Msg::StatusBroken);
    reveal_with_fuel(scan_placeholders, 6);
    assert(placeholders(s) =~= Seq::<Seq<char>>::empty());
}

proof fn lemma_placeholders_hi_status_broken()
    ensures
        placeholders(text_hi(Msg::StatusBroken)) == Seq::<Seq<char>>::empty(),
{
    reveal_strlit("क्षतिग्रस्त");
    let s = text_hi(Msg::StatusBroken);
    reveal_with_fuel(scan_placeholders, 13);
    assert(placeholders(s) =~= Seq::<Seq<char>>::empty());
}

proof fn lemma_placeholders_ar_status_broken()
    ensures
        placeholders(text_ar(Msg::StatusBroken)) == Seq::<Seq<char>>::empty(),
{
    reveal_strlit("تالف");
    let s = text_ar(Msg::StatusBroken);
    reveal_with_fuel(scan_placeholders, 6);
    assert(placeholders(s) =~= Seq::<Seq<char>>::empty());
}

proof fn lemma_placeholders_pt_status_broken()
    ensures
        placeholders(text_pt(Msg::StatusBroken)) == Seq::<Seq<char>>::empty(),
{
    reveal_strlit("Quebrado");
    let s = text_pt(Msg::StatusBroken);
    reveal_with_fuel(scan_placeholders, 10);
    assert(placeholders(s) =~= Seq::<Seq<char>>::empty());
}

proof fn lemma_placeholders_ru_status_broken()
    ensures
        placeholders(text_ru(Msg::StatusBroken)) == Seq::<Seq<char>>::empty(),
{
    reveal_strlit("Повреждено");
    let s = text_ru(Msg::StatusBroken);
    reveal_with_fuel(scan_placeholders, 12);
    assert(placeholders(s) =~= Seq::<Seq<char>>::empty());
}

proof fn lemma_placeholders_en_status_unknown()
    ensures
        placeholders(text_en(Msg::StatusUnknown)) == Seq::<Seq<char>>::empty(),
{
    reveal_strlit("Unknown");
    let s = text_en(Msg::StatusUnknown);
    reveal_with_fuel(scan_placeholders, 9);
    assert(placeholders(s) =~= Seq::<Seq<char>>::empty());
}

proof fn lemma_placeholders_zh_status_unknown()
    ensures
        placeholders(text_zh(Msg::StatusUnknown)) == Seq::<Seq<char>>::empty(),
{
    reveal_strlit("未知");
    let s = text_zh(Msg::StatusUnknown);
    reveal_with_fuel(scan_placeholders, 4);
    assert(placeholders(s) =~= Seq::<Seq<char>>::empty());
}

proof fn lemma_placeholders_es_status_unknown()
    ensures
        placeholders(text_es(Msg::StatusUnknown)) == Seq::<Seq<char>>::empty(),
{
    reveal_strlit("Desconocido");
    let s = text_es(Msg::StatusUnknown);
    reveal_with_fuel(scan_placeholders, 13);
    assert(placeholders(s) =~= Seq::<Seq<char>>::empty());
}

proof fn lemma_placeholders_hi_status_unknown()
    ensures
        placeholders(text_hi(Msg::StatusUnknown)) == Seq::<Seq<char>>::empty(),
{
    reveal_strlit("अज्ञात");
    let s = text_hi(Msg::StatusUnknown);
    reveal_with_fuel(scan_placeholders, 8);
    assert(placeholders(s) =~= Seq::<Seq<char>>::empty());
}

proof fn lemma_placeholders_ar_status_unknown()
    ensures
        placeholders(text_ar(Msg::StatusUnknown)) == Seq::<Seq<char>>::empty(),
{
    reveal_strlit("غير معروف");
    let s = text_ar(Msg::StatusUnknown);
    reveal_with_fuel(scan_placeholders, 11);
    assert(placeholders(s) =~= Seq::<Seq<char>>::empty());
}

proof fn lemma_placeholders_pt_status_unknown()
    ensures
        placeholders(text_pt(Msg::StatusUnknown)) == Seq::<Seq<char>>::empty(),
{
    reveal_strlit("Desconhecido");
    let s = text_pt(Msg::StatusUnknown);
    reveal_with_fuel(scan_placeholders, 14);
    assert(placeholders(s) =~= Seq::<Seq<char>>::empty());
}

proof fn lemma_placeholders_ru_status_unknown()
    ensures
        placeholders(text_ru(Msg::StatusUnknown)) == Seq::<Seq<char>>::empty(),
{
    reveal_strlit("Неизвестно");
    let s = text_ru(Msg::StatusUnknown);
    reveal_with_fuel(scan_placeholders, 12);
    assert(placeholders(s) =~= Seq::<Seq<char>>::empty());
}

proof fn lemma_placeholders_en_backend_available()
    ensures
        placeholders(text_en(Msg::BackendAvailable)) == seq!["method"@],
{
    reveal_strlit("method");
    reveal_strlit("{method} available");
    let s = text_en(Msg::BackendAvailable);
    assert(s.subrange(1, 7) =~= "method"@);
    reveal_with_fuel(scan_placeholders, 20);
    assert(placeholders(s) =~= seq!["method"@]);
}

proof fn lemma_placeholders_zh_backend_available()
    ensures
        placeholders(text_zh(Msg::BackendAvailable)) == seq!["method"@],
{
    reveal_strlit("method");
    reveal_strlit("{method} 可用");
    let s = text_zh(Msg::BackendAvailable);
    assert(s.subrange(1, 7) =~= "method"@);
    reveal_with_fuel(scan_placeholders, 13);
    assert(placeholders(s) =~= seq!["method"@]);
}

proof fn lemma_placeholders_es_backend_available()
    ensures
        placeholders(text_es(Msg::BackendAvailable)) == seq!["method"@],
{
    reveal_strlit("method");
    reveal_strlit("{method} disponible");
    let s = text_es(Msg::BackendAvailable);
    assert(s.subrange(1, 7) =~= "method"@);
    reveal_with_fuel(scan_placeholders, 21);
    assert(placeholders(s) =~= seq!["method"@]);
}

proof fn lemma_placeholders_hi_backend_available()
    ensures
        placeholders(text_hi(Msg::BackendAvailable)) == seq!["method"@],
{
    reveal_strlit("method");
    reveal_strlit("{method} उपलब्ध");
    let s = text_hi(Msg::BackendAvailable);
    assert(s.subrange(1, 7) =~= "method"@);
    reveal_with_fuel(scan_placeholders, 17);
    assert(placeholders(s) =~= seq!["method"@]);
}

proof fn lemma_placeholders_ar_backend_available()
    ensures
        placeholders(text_ar(Msg::BackendAvailable)) == seq!["method"@],
{
    reveal_strlit("method");
    reveal_strlit("{method} متاح");
    let s = text_ar(Msg::BackendAvailable);
    assert(s.subrange(1, 7) =~= "method"@);
    reveal_with_fuel(scan_placeholders, 15);
    assert(placeholders(s) =~= seq!["method"@]);
}

proof fn lemma_placeholders_pt_backend_available()
    ensures
        placeholders(text_pt(Msg::BackendAvailable)) == seq!["method"@],
{
    reveal_strlit("method");
    reveal_strlit("{method} disponível");
    let s = text_pt(Msg::BackendAvailable);
    assert(s.subrange(1, 7) =~= "method"@);
    reveal_with_fuel(scan_placeholders, 21);
    assert(placeholders(s) =~= seq!["method"@]);
}

proof fn lemma_placeholders_ru_backend_available()
    ensures
        placeholders(text_ru(Msg::BackendAvailable)) == seq!["method"@],
{
    reveal_strlit("method");
    reveal_strlit("{method} доступен");
    let s = text_ru(Msg::BackendAvailable);
    assert(s.subrange(1, 7) =~= "method"@);
    reveal_with_fuel(scan_placeholders, 19);
    assert(placeholders(s) =~= seq!["method"@]);
}

proof fn lemma_placeholders_en_backend_unavailable()
    ensures
        placeholders(text_en(Msg::BackendUnavailable)) == seq!["method"@],
{
    reveal_strlit("method");
    reveal_strlit("{method} not available");
    let s = text_en(Msg::BackendUnavailable);
    assert(s.subrange(1, 7) =~= "method"@);
    reveal_with_fuel(scan_placeholders, 24);
    assert(placeholders(s) =~= seq!["method"@]);
}

proof fn lemma_placeholders_zh_backend_unavailable()
    ensures
        placeholders(text_zh(Msg::BackendUnavailable)) == seq!["method"@],
{
    reveal_strlit("method");
    reveal_strlit("{method} 不可用");
    let s = text_zh(Msg::BackendUnavailable);
    assert(s.subrange(1, 7) =~= "method"@);
    reveal_with_fuel(scan_placeholders, 14);
    assert(placeholders(s) =~= seq!["method"@]);
}

proof fn lemma_placeholders_es_backend_unavailable()
    ensures
        placeholders(text_es(Msg::BackendUnavailable)) == seq!["method"@],
{
    reveal_strlit("method");
    reveal_strlit("{method} no disponible");
    let s = text_es(Msg::BackendUnavailable);
    assert(s.subrange(1, 7) =~= "method"@);
    reveal_with_fuel(scan_placeholders, 24);
    assert(placeholders(s) =~= seq!["method"@]);
}

proof fn lemma_placeholders_hi_backend_unavailable()
    ensures
        placeholders(text_hi(Msg::BackendUnavailable)) == seq!["method"@],
{
    reveal_strlit("method");
    reveal_strlit("{method} उपलब्ध नहीं");
    let s = text_hi(Msg::BackendUnavailable);
    assert(s.subrange(1, 7) =~= "method"@);
    reveal_with_fuel(scan_placeholders, 22);
    assert(placeholders(s) =~= seq!["method"@]);
}

proof fn lemma_placeholders_ar_backend_unavailable()
    ensures
        placeholders(text_ar(Msg::BackendUnavailable)) == seq!["method"@],
{
    reveal_strlit("method");
    reveal_strlit("{method} غير متاح");
    let s = text_ar(Msg::BackendUnavailable);
    assert(s.subrange(1, 7) =~= "method"@);
    reveal_with_fuel(scan_placeholders, 19);
    assert(placeholders(s) =~= seq!["method"@]);
}

proof fn lemma_placeholders_pt_backend_unavailable()
    ensures
        placeholders(text_pt(Msg::BackendUnavailable)) == seq!["method"@],
{
    reveal_strlit("method");
    reveal_strlit("{method} não disponível");
    let s = text_pt(Msg::BackendUnavailable);
    assert(s.subrange(1, 7) =~= "method"@);
    reveal_with_fuel(scan_placeholders, 25);
    assert(placeholders(s) =~= seq!["method"@]);
}

proof fn lemma_placeholders_ru_backend_unavailable()
    ensures
        placeholders(text_ru(Msg::BackendUnavailable)) == seq!["method"@],
{
    reveal_strlit("method");
    reveal_strlit("{method} недоступен");
    let s = text_ru(Msg::BackendUnavailable);
    assert(s.subrange(1, 7) =~= "method"@);
    reveal_with_fuel(scan_placeholders, 21);
    assert(placeholders(s) =~= seq!["method"@]);
}

proof fn lemma_placeholders_en_backend_detectable()
    ensures
        placeholders(text_en(Msg::BackendDetectable)) == seq!["method"@],
{
    reveal_strlit("method");
    reveal_strlit("{method} detectable");
    let s = text_en(Msg::BackendDetectable);
    assert(s.subrange(1, 7) =~= "method"@);
    reveal_with_fuel(scan_placeholders, 21);
    assert(placeholders(s) =~= seq!["method"@]);
}

proof fn lemma_placeholders_zh_backend_detectable()
    ensures
        placeholders(text_zh(Msg::BackendDetectable)) == seq!["method"@],
{
    reveal_strlit("method");
    reveal_strlit("{method} 可检测");
    let s = text_zh(Msg::BackendDetectable);
    assert(s.subrange(1, 7) =~= "method"@);
    reveal_with_fuel(scan_placeholders, 14);
    assert(placeholders(s) =~= seq!["method"@]);
}

proof fn lemma_placeholders_es_backend_detectable()
    ensures
        placeholders(text_es(Msg::BackendDetectable)) == seq!["method"@],
{
    reveal_strlit("method");
    reveal_strlit("{method} detectable");
    let s = text_es(Msg::BackendDetectable);
    assert(s.subrange(1, 7) =~= "method"@);
    reveal_with_fuel(scan_placeholders, 21);
    assert(placeholders(s) =~= seq!["method"@]);
}

proof fn lemma_placeholders_hi_backend_detectable()
    ensures
        placeholders(text_hi(Msg::BackendDetectable)) == seq!["method"@],
{
    reveal_strlit("method");
    reveal_strlit("{method} पता लगाने योग्य");
    let s = text_hi(Msg::BackendDetectable);
    assert(s.subrange(1, 7) =~= "method"@);
    reveal_with_fuel(scan_placeholders, 26);
    assert(placeholders(s) =~= seq!["method"@]);
}

proof fn lemma_placeholders_ar_backend_detectable()
    ensures
        placeholders(text_ar(Msg::BackendDetectable)) == seq!["method"@],
{
    reveal_strlit("method");
    reveal_strlit("{method} قابل للاكتشاف");
    let s = text_ar(Msg::BackendDetectable);
    assert(s.subrange(1, 7) =~= "method"@);
    reveal_with_fuel(scan_placeholders, 24);
    assert(placeholders(s) =~= seq!["method"@]);
}

proof fn lemma_placeholders_pt_backend_detectable()
    ensures
        placeholders(text_pt(Msg::BackendDetectable)) == seq!["method"@],
{
    reveal_strlit("method");
    reveal_strlit("{method} detectável");
    let s = text_pt(Msg::BackendDetectable);
    assert(s.subrange(1, 7) =~= "method"@);
    reveal_with_fuel(scan_placeholders, 21);
    assert(placeholders(s) =~= seq!["method"@]);
}

proof fn lemma_placeholders_ru_backend_detectable()
    ensures
        placeholders(text_ru(Msg::BackendDetectable)) == seq!["method"@],
{
    reveal_strlit("method");
    reveal_strlit("{method} обнаруживается");
    let s = text_ru(Msg::BackendDetectable);
    assert(s.subrange(1, 7) =~= "method"@);
    reveal_with_fuel(scan_placeholders, 25);
    assert(placeholders(s) =~= seq!["method"@]);
}

/// Every text of the catalog holds the same placeholders, in the same
/// order, in every language as in English; so every language fills the
/// same `{word}` slots.
pub proof fn lemma_placeholders_agree(l: Language, m: Msg)
    ensures
        placeholders(catalog(l, m)) == placeholders(catalog(Language::English, m)),
        placeholders(catalog(l, m)).to_set() == placeholders(catalog(Language::English, m)).to_set(),
{
    match m {
        Msg::Home => {
            lemma_placeholders_en_home();
            lemma_placeholders_zh_home();
            lemma_placeholders_es_home();
            lemma_placeholders_hi_home();
            lemma_placeholders_ar_home();
            lemma_placeholders_pt_home();
            lemma_placeholders_ru_home();
        },
        Msg::All => {
            lemma_placeholders_en_all();
            lemma_placeholders_zh_all();
            lemma_placeholders_es_all();
            lemma_placeholders_hi_all();
            lemma_placeholders_ar_all();
            lemma_placeholders_pt_all();
            lemma_placeholders_ru_all();
        },
        Msg::AllApps => {
            lemma_placeholders_en_all_apps();
            lemma_placeholders_zh_all_apps();
            lemma_placeholders_es_all_apps();
            lemma_placeholders_hi_all_apps();
            lemma_placeholders_ar_all_apps();
            lemma_placeholders_pt_all_apps();
            lemma_placeholders_ru_all_apps();
        },
        Msg::Settings => {
            lemma_placeholders_en_settings();
            lemma_placeholders_zh_settings();
            lemma_placeholders_es_settings();
            lemma_placeholders_hi_settings();
            lemma_placeholders_ar_settings();
            lemma_placeholders_pt_settings();
            lemma_placeholders_ru_settings();
        },
        Msg::System => {
            lemma_placeholders_en_system();
            lemma_placeholders_zh_system();
            lemma_placeholders_es_system();
            lemma_placeholders_hi_system();
            lemma_placeholders_ar_system();
            lemma_placeholders_pt_system();
            lemma_placeholders_ru_system();
        },
        Msg::Manual => {
            lemma_placeholders_en_manual();
            lemma_placeholders_zh_manual();
            lemma_placeholders_es_manual();
            lemma_placeholders_hi_manual();
            lemma_placeholders_ar_manual();
            lemma_placeholders_pt_manual();
            lemma_placeholders_ru_manual();
        },
        Msg::AppsInstalled => {
            lemma_placeholders_en_apps_installed();
            lemma_placeholders_zh_apps_installed();
            lemma_placeholders_es_apps_installed();
            lemma_placeholders_hi_apps_installed();
            lemma_placeholders_ar_apps_installed();
            lemma_placeholders_pt_apps_installed();
            lemma_placeholders_ru_apps_installed();
        },
        Msg::AppsCount => {
            lemma_placeholders_en_apps_count();
            lemma_placeholders_zh_apps_count();
            lemma_placeholders_es_apps_count();
            lemma_placeholders_hi_apps_count();
            lemma_placeholders_ar_apps_count();
            lemma_placeholders_pt_apps_count();
            lemma_placeholders_ru_apps_count();
        },
        Msg::AppsCountParen => {
            lemma_placeholders_en_apps_count_paren();
            lemma_placeholders_zh_apps_count_paren();
            lemma_placeholders_es_apps_count_paren();
            lemma_placeholders_hi_apps_count_paren();
            lemma_placeholders_ar_apps_count_paren();
            lemma_placeholders_pt_apps_count_paren();
            lemma_placeholders_ru_apps_count_paren();
        },
        Msg::SearchingApps => {
            lemma_placeholders_en_searching_apps();
            lemma_placeholders_zh_searching_apps();
            lemma_placeholders_es_searching_apps();
            lemma_placeholders_hi_searching_apps();
            lemma_placeholders_ar_searching_apps();
            lemma_placeholders_pt_searching_apps();
            lemma_placeholders_ru_searching_apps();
        },
        Msg::SearchingMethod => {
            lemma_placeholders_en_searching_method();
            lemma_placeholders_zh_searching_method();
            lemma_placeholders_es_searching_method();
            lemma_placeholders_hi_searching_method();
            lemma_placeholders_ar_searching_method();
            lemma_placeholders_pt_searching_method();
            lemma_placeholders_ru_searching_method();
        },
        Msg::MethodCount => {
            lemma_placeholders_en_method_count();
            lemma_placeholders_zh_method_count();
            lemma_placeholders_es_method_count();
            lemma_placeholders_hi_method_count();
            lemma_placeholders_ar_method_count();
            lemma_placeholders_pt_method_count();
            lemma_placeholders_ru_method_count();
        },
        Msg::ScanDoneToast => {
            lemma_placeholders_en_scan_done_toast();
            lemma_placeholders_zh_scan_done_toast();
            lemma_placeholders_es_scan_done_toast();
            lemma_placeholders_hi_scan_done_toast();
            lemma_placeholders_ar_scan_done_toast();
            lemma_placeholders_pt_scan_done_toast();
            lemma_placeholders_ru_scan_done_toast();
        },
        Msg::AppsFound => {
            lemma_placeholders_en_apps_found();
            lemma_placeholders_zh_apps_found();
            lemma_placeholders_es_apps_found();
            lemma_placeholders_hi_apps_found();
            lemma_placeholders_ar_apps_found();
            lemma_placeholders_pt_apps_found();
            lemma_placeholders_ru_apps_found();
        },
        Msg::ByMethod => {
            lemma_placeholders_en_by_method();
            lemma_placeholders_zh_by_method();
            lemma_placeholders_es_by_method();
            lemma_placeholders_hi_by_method();
            lemma_placeholders_ar_by_method();
            lemma_placeholders_pt_by_method();
            lemma_placeholders_ru_by_method();
        },
        Msg::SpaceUsed => {
            lemma_placeholders_en_space_used();
            lemma_placeholders_zh_space_used();
            lemma_placeholders_es_space_used();
            lemma_placeholders_hi_space_used();
            lemma_placeholders_ar_space_used();
            lemma_placeholders_pt_space_used();
            lemma_placeholders_ru_space_used();
        },
        Msg::SearchPlaceholder => {
            lemma_placeholders_en_search_placeholder();
            lemma_placeholders_zh_search_placeholder();
            lemma_placeholders_es_search_placeholder();
            lemma_placeholders_hi_search_placeholder();
            lemma_placeholders_ar_search_placeholder();
            lemma_placeholders_pt_search_placeholder();
            lemma_placeholders_ru_search_placeholder();
        },
        Msg::Sort => {
            lemma_placeholders_en_sort();
            lemma_placeholders_zh_sort();
            lemma_placeholders_es_sort();
            lemma_placeholders_hi_sort();
            lemma_placeholders_ar_sort();
            lemma_placeholders_pt_sort();
            lemma_placeholders_ru_sort();
        },
        Msg::SortName => {
            lemma_placeholders_en_sort_name();
            lemma_placeholders_zh_sort_name();
            lemma_placeholders_es_sort_name();
            lemma_placeholders_hi_sort_name();
            lemma_placeholders_ar_sort_name();
            lemma_placeholders_pt_sort_name();
            lemma_placeholders_ru_sort_name();
        },
        Msg::SortSize => {
            lemma_placeholders_en_sort_size();
            lemma_placeholders_zh_sort_size();
            lemma_placeholders_es_sort_size();
            lemma_placeholders_hi_sort_size();
            lemma_placeholders_ar_sort_size();
            lemma_placeholders_pt_sort_size();
            lemma_placeholders_ru_sort_size();
        },
        Msg::SortDate => {
            lemma_placeholders_en_sort_date();
            lemma_placeholders_zh_sort_date();
            lemma_placeholders_es_sort_date();
            lemma_placeholders_hi_sort_date();
            lemma_placeholders_ar_sort_date();
            lemma_placeholders_pt_sort_date();
            lemma_placeholders_ru_sort_date();
        },
        Msg::SortMethod => {
            lemma_placeholders_en_sort_method();
            lemma_placeholders_zh_sort_method();
            lemma_placeholders_es_sort_method();
            lemma_placeholders_hi_sort_method();
            lemma_placeholders_ar_sort_method();
            lemma_placeholders_pt_sort_method();
            lemma_placeholders_ru_sort_method();
        },
        Msg::SortUpdate => {
            lemma_placeholders_en_sort_update();
            lemma_placeholders_zh_sort_update();
            lemma_placeholders_es_sort_update();
            lemma_placeholders_hi_sort_update();
            lemma_placeholders_ar_sort_update();
            lemma_placeholders_pt_sort_update();
            lemma_placeholders_ru_sort_update();
        },
        Msg::NoApps => {
            lemma_placeholders_en_no_apps();
            lemma_placeholders_zh_no_apps();
            lemma_placeholders_es_no_apps();
            lemma_placeholders_hi_no_apps();
            lemma_placeholders_ar_no_apps();
            lemma_placeholders_pt_no_apps();
            lemma_placeholders_ru_no_apps();
        },
        Msg::NoAppsMethod => {
            lemma_placeholders_en_no_apps_method();
            lemma_placeholders_zh_no_apps_method();
            lemma_placeholders_es_no_apps_method();
            lemma_placeholders_hi_no_apps_method();
            lemma_placeholders_ar_no_apps_method();
            lemma_placeholders_pt_no_apps_method();
            lemma_placeholders_ru_no_apps_method();
        },
        Msg::NoAppsFilter => {
            lemma_placeholders_en_no_apps_filter();
            lemma_placeholders_zh_no_apps_filter();
            lemma_placeholders_es_no_apps_filter();
            lemma_placeholders_hi_no_apps_filter();
            lemma_placeholders_ar_no_apps_filter();
            lemma_placeholders_pt_no_apps_filter();
            lemma_placeholders_ru_no_apps_filter();
        },
        Msg::NoAppsSearch => {
            lemma_placeholders_en_no_apps_search();
            lemma_placeholders_zh_no_apps_search();
            lemma_placeholders_es_no_apps_search();
            lemma_placeholders_hi_no_apps_search();
            lemma_placeholders_ar_no_apps_search();
            lemma_placeholders_pt_no_apps_search();
            lemma_placeholders_ru_no_apps_search();
        },
        Msg::Done => {
            lemma_placeholders_en_done();
            lemma_placeholders_zh_done();
            lemma_placeholders_es_done();
            lemma_placeholders_hi_done();
            lemma_placeholders_ar_done();
            lemma_placeholders_pt_done();
            lemma_placeholders_ru_done();
        },
        Msg::InProgress => {
            lemma_placeholders_en_in_progress();
            lemma_placeholders_zh_in_progress();
            lemma_placeholders_es_in_progress();
            lemma_placeholders_hi_in_progress();
            lemma_placeholders_ar_in_progress();
            lemma_placeholders_pt_in_progress();
            lemma_placeholders_ru_in_progress();
        },
        Msg::Error => {
            lemma_placeholders_en_error();
            lemma_placeholders_zh_error();
            lemma_placeholders_es_error();
            lemma_placeholders_hi_error();
            lemma_placeholders_ar_error();
            lemma_placeholders_pt_error();
            lemma_placeholders_ru_error();
        },
        Msg::Unavailable => {
            lemma_placeholders_en_unavailable();
            lemma_placeholders_zh_unavailable();
            lemma_placeholders_es_unavailable();
            lemma_placeholders_hi_unavailable();
            lemma_placeholders_ar_unavailable();
            lemma_placeholders_pt_unavailable();
            lemma_placeholders_ru_unavailable();
        },
        Msg::Pending => {
            lemma_placeholders_en_pending();
            lemma_placeholders_zh_pending();
            lemma_placeholders_es_pending();
            lemma_placeholders_hi_pending();
            lemma_placeholders_ar_pending();
            lemma_placeholders_pt_pending();
            lemma_placeholders_ru_pending();
        },
        Msg::Details => {
            lemma_placeholders_en_details();
            lemma_placeholders_zh_details();
            lemma_placeholders_es_details();
            lemma_placeholders_hi_details();
            lemma_placeholders_ar_details();
            lemma_placeholders_pt_details();
            lemma_placeholders_ru_details();
        },
        Msg::Information => {
            lemma_placeholders_en_information();
            lemma_placeholders_zh_information();
            lemma_placeholders_es_information();
            lemma_placeholders_hi_information();
            lemma_placeholders_ar_information();
            lemma_placeholders_pt_information();
            lemma_placeholders_ru_information();
        },
        Msg::Installation => {
            lemma_placeholders_en_installation();
            lemma_placeholders_zh_installation();
            lemma_placeholders_es_installation();
            lemma_placeholders_hi_installation();
            lemma_placeholders_ar_installation();
            lemma_placeholders_pt_installation();
            lemma_placeholders_ru_installation();
        },
        Msg::Version => {
            lemma_placeholders_en_version();
            lemma_placeholders_zh_version();
            lemma_placeholders_es_version();
            lemma_placeholders_hi_version();
            lemma_placeholders_ar_version();
            lemma_placeholders_pt_version();
            lemma_placeholders_ru_version();
        },
        Msg::Type => {
            lemma_placeholders_en_type();
            lemma_placeholders_zh_type();
            lemma_placeholders_es_type();
            lemma_placeholders_hi_type();
            lemma_placeholders_ar_type();
            lemma_placeholders_pt_type();
            lemma_placeholders_ru_type();
        },
        Msg::TypeApp => {
            lemma_placeholders_en_type_app();
            lemma_placeholders_zh_type_app();
            lemma_placeholders_es_type_app();
            lemma_placeholders_hi_type_app();
            lemma_placeholders_ar_type_app();
            lemma_placeholders_pt_type_app();
            lemma_placeholders_ru_type_app();
        },
        Msg::Architecture => {
            lemma_placeholders_en_architecture();
            lemma_placeholders_zh_architecture();
            lemma_placeholders_es_architecture();
            lemma_placeholders_hi_architecture();
            lemma_placeholders_ar_architecture();
            lemma_placeholders_pt_architecture();
            lemma_placeholders_ru_architecture();
        },
        Msg::Status => {
            lemma_placeholders_en_status();
            lemma_placeholders_zh_status();
            lemma_placeholders_es_status();
            lemma_placeholders_hi_status();
            lemma_placeholders_ar_status();
            lemma_placeholders_pt_status();
            lemma_placeholders_ru_status();
        },
        Msg::Category => {
            lemma_placeholders_en_category();
            lemma_placeholders_zh_category();
            lemma_placeholders_es_category();
            lemma_placeholders_hi_category();
            lemma_placeholders_ar_category();
            lemma_placeholders_pt_category();
            lemma_placeholders_ru_category();
        },
        Msg::Description => {
            lemma_placeholders_en_description();
            lemma_placeholders_zh_description();
            lemma_placeholders_es_description();
            lemma_placeholders_hi_description();
            lemma_placeholders_ar_description();
            lemma_placeholders_pt_description();
            lemma_placeholders_ru_description();
        },
        Msg::Method => {
            lemma_placeholders_en_method();
            lemma_placeholders_zh_method();
            lemma_placeholders_es_method();
            lemma_placeholders_hi_method();
            lemma_placeholders_ar_method();
            lemma_placeholders_pt_method();
            lemma_placeholders_ru_method();
        },
        Msg::Origin => {
            lemma_placeholders_en_origin();
            lemma_placeholders_zh_origin();
            lemma_placeholders_es_origin();
            lemma_placeholders_hi_origin();
            lemma_placeholders_ar_origin();
            lemma_placeholders_pt_origin();
            lemma_placeholders_ru_origin();
        },
        Msg::Location => {
            lemma_placeholders_en_location();
            lemma_placeholders_zh_location();
            lemma_placeholders_es_location();
            lemma_placeholders_hi_location();
            lemma_placeholders_ar_location();
            lemma_placeholders_pt_location();
            lemma_placeholders_ru_location();
        },
        Msg::Size => {
            lemma_placeholders_en_size();
            lemma_placeholders_zh_size();
            lemma_placeholders_es_size();
            lemma_placeholders_hi_size();
            lemma_placeholders_ar_size();
            lemma_placeholders_pt_size();
            lemma_placeholders_ru_size();
        },
        Msg::Date => {
            lemma_placeholders_en_date();
            lemma_placeholders_zh_date();
            lemma_placeholders_es_date();
            lemma_placeholders_hi_date();
            lemma_placeholders_ar_date();
            lemma_placeholders_pt_date();
            lemma_placeholders_ru_date();
        },
        Msg::Package => {
            lemma_placeholders_en_package();
            lemma_placeholders_zh_package();
            lemma_placeholders_es_package();
            lemma_placeholders_hi_package();
            lemma_placeholders_ar_package();
            lemma_placeholders_pt_package();
            lemma_placeholders_ru_package();
        },
        Msg::Uninstall => {
            lemma_placeholders_en_uninstall();
            lemma_placeholders_zh_uninstall();
            lemma_placeholders_es_uninstall();
            lemma_placeholders_hi_uninstall();
            lemma_placeholders_ar_uninstall();
            lemma_placeholders_pt_uninstall();
            lemma_placeholders_ru_uninstall();
        },
        Msg::UninstallConfirmTitle => {
            lemma_placeholders_en_uninstall_confirm_title();
            lemma_placeholders_zh_uninstall_confirm_title();
            lemma_placeholders_es_uninstall_confirm_title();
            lemma_placeholders_hi_uninstall_confirm_title();
            lemma_placeholders_ar_uninstall_confirm_title();
            lemma_placeholders_pt_uninstall_confirm_title();
            lemma_placeholders_ru_uninstall_confirm_title();
        },
        Msg::UninstallConfirmBody => {
            lemma_placeholders_en_uninstall_confirm_body();
            lemma_placeholders_zh_uninstall_confirm_body();
            lemma_placeholders_es_uninstall_confirm_body();
            lemma_placeholders_hi_uninstall_confirm_body();
            lemma_placeholders_ar_uninstall_confirm_body();
            lemma_placeholders_pt_uninstall_confirm_body();
            lemma_placeholders_ru_uninstall_confirm_body();
        },
        Msg::Cancel => {
            lemma_placeholders_en_cancel();
            lemma_placeholders_zh_cancel();
            lemma_placeholders_es_cancel();
            lemma_placeholders_hi_cancel();
            lemma_placeholders_ar_cancel();
            lemma_placeholders_pt_cancel();
            lemma_placeholders_ru_cancel();
        },
        Msg::Close => {
            lemma_placeholders_en_close();
            lemma_placeholders_zh_close();
            lemma_placeholders_es_close();
            lemma_placeholders_hi_close();
            lemma_placeholders_ar_close();
            lemma_placeholders_pt_close();
            lemma_placeholders_ru_close();
        },
        Msg::Uninstalled => {
            lemma_placeholders_en_uninstalled();
            lemma_placeholders_zh_uninstalled();
            lemma_placeholders_es_uninstalled();
            lemma_placeholders_hi_uninstalled();
            lemma_placeholders_ar_uninstalled();
            lemma_placeholders_pt_uninstalled();
            lemma_placeholders_ru_uninstalled();
        },
        Msg::Failure => {
            lemma_placeholders_en_failure();
            lemma_placeholders_zh_failure();
            lemma_placeholders_es_failure();
            lemma_placeholders_hi_failure();
            lemma_placeholders_ar_failure();
            lemma_placeholders_pt_failure();
            lemma_placeholders_ru_failure();
        },
        Msg::Interrupted => {
            lemma_placeholders_en_interrupted();
            lemma_placeholders_zh_interrupted();
            lemma_placeholders_es_interrupted();
            lemma_placeholders_hi_interrupted();
            lemma_placeholders_ar_interrupted();
            lemma_placeholders_pt_interrupted();
            lemma_placeholders_ru_interrupted();
        },
        Msg::About => {
            lemma_placeholders_en_about();
            lemma_placeholders_zh_about();
            lemma_placeholders_es_about();
            lemma_placeholders_hi_about();
            lemma_placeholders_ar_about();
            lemma_placeholders_pt_about();
            lemma_placeholders_ru_about();
        },
        Msg::AboutDesc => {
            lemma_placeholders_en_about_desc();
            lemma_placeholders_zh_about_desc();
            lemma_placeholders_es_about_desc();
            lemma_placeholders_hi_about_desc();
            lemma_placeholders_ar_about_desc();
            lemma_placeholders_pt_about_desc();
            lemma_placeholders_ru_about_desc();
        },
        Msg::Identifier => {
            lemma_placeholders_en_identifier();
            lemma_placeholders_zh_identifier();
            lemma_placeholders_es_identifier();
            lemma_placeholders_hi_identifier();
            lemma_placeholders_ar_identifier();
            lemma_placeholders_pt_identifier();
            lemma_placeholders_ru_identifier();
        },
        Msg::License => {
            lemma_placeholders_en_license();
            lemma_placeholders_zh_license();
            lemma_placeholders_es_license();
            lemma_placeholders_hi_license();
            lemma_placeholders_ar_license();
            lemma_placeholders_pt_license();
            lemma_placeholders_ru_license();
        },
        Msg::Language => {
            lemma_placeholders_en_language();
            lemma_placeholders_zh_language();
            lemma_placeholders_es_language();
            lemma_placeholders_hi_language();
            lemma_placeholders_ar_language();
            lemma_placeholders_pt_language();
            lemma_placeholders_ru_language();
        },
        Msg::LanguageDesc => {
            lemma_placeholders_en_language_desc();
            lemma_placeholders_zh_language_desc();
            lemma_placeholders_es_language_desc();
            lemma_placeholders_hi_language_desc();
            lemma_placeholders_ar_language_desc();
            lemma_placeholders_pt_language_desc();
            lemma_placeholders_ru_language_desc();
        },
        Msg::LanguageUpdated => {
            lemma_placeholders_en_language_updated();
            lemma_placeholders_zh_language_updated();
            lemma_placeholders_es_language_updated();
            lemma_placeholders_hi_language_updated();
            lemma_placeholders_ar_language_updated();
            lemma_placeholders_pt_language_updated();
            lemma_placeholders_ru_language_updated();
        },
        Msg::Tagline => {
            lemma_placeholders_en_tagline();
            lemma_placeholders_zh_tagline();
            lemma_placeholders_es_tagline();
            lemma_placeholders_hi_tagline();
            lemma_placeholders_ar_tagline();
            lemma_placeholders_pt_tagline();
            lemma_placeholders_ru_tagline();
        },
        Msg::AboutBody => {
            lemma_placeholders_en_about_body();
            lemma_placeholders_zh_about_body();
            lemma_placeholders_es_about_body();
            lemma_placeholders_hi_about_body();
            lemma_placeholders_ar_about_body();
            lemma_placeholders_pt_about_body();
            lemma_placeholders_ru_about_body();
        },
        Msg::AboutFeatures => {
            lemma_placeholders_en_about_features();
            lemma_placeholders_zh_about_features();
            lemma_placeholders_es_about_features();
            lemma_placeholders_hi_about_features();
            lemma_placeholders_ar_about_features();
            lemma_placeholders_pt_about_features();
            lemma_placeholders_ru_about_features();
        },
        Msg::StatusInstalled => {
            lemma_placeholders_en_status_installed();
            lemma_placeholders_zh_status_installed();
            lemma_placeholders_es_status_installed();
            lemma_placeholders_hi_status_installed();
            lemma_placeholders_ar_status_installed();
            lemma_placeholders_pt_status_installed();
            lemma_placeholders_ru_status_installed();
        },
        Msg::StatusUpdate => {
            lemma_placeholders_en_status_update();
            lemma_placeholders_zh_status_update();
            lemma_placeholders_es_status_update();
            lemma_placeholders_hi_status_update();
            lemma_placeholders_ar_status_update();
            lemma_placeholders_pt_status_update();
            lemma_placeholders_ru_status_update();
        },
        Msg::StatusBroken => {
            lemma_placeholders_en_status_broken();
            lemma_placeholders_zh_status_broken();
            lemma_placeholders_es_status_broken();
            lemma_placeholders_hi_status_broken();
            lemma_placeholders_ar_status_broken();
            lemma_placeholders_pt_status_broken();
            lemma_placeholders_ru_status_broken();
        },
        Msg::StatusUnknown => {
            lemma_placeholders_en_status_unknown();
            lemma_placeholders_zh_status_unknown();
            lemma_placeholders_es_status_unknown();
            lemma_placeholders_hi_status_unknown();
            lemma_placeholders_ar_status_unknown();
            lemma_placeholders_pt_status_unknown();
            lemma_placeholders_ru_status_unknown();
        },
        Msg::BackendAvailable => {
            lemma_placeholders_en_backend_available();
            lemma_placeholders_zh_backend_available();
            lemma_placeholders_es_backend_available();
            lemma_placeholders_hi_backend_available();
            lemma_placeholders_ar_backend_available();
            lemma_placeholders_pt_backend_available();
            lemma_placeholders_ru_backend_available();
        },
        Msg::BackendUnavailable => {
            lemma_placeholders_en_backend_unavailable();
            lemma_placeholders_zh_backend_unavailable();
            lemma_placeholders_es_backend_unavailable();
            lemma_placeholders_hi_backend_unavailable();
            lemma_placeholders_ar_backend_unavailable();
            lemma_placeholders_pt_backend_unavailable();
            lemma_placeholders_ru_backend_unavailable();
        },
        Msg::BackendDetectable => {
            lemma_placeholders_en_backend_detectable();
            lemma_placeholders_zh_backend_detectable();
            lemma_placeholders_es_backend_detectable();
            lemma_placeholders_hi_backend_detectable();
            lemma_placeholders_ar_backend_detectable();
            lemma_placeholders_pt_backend_detectable();
            lemma_placeholders_ru_backend_detectable();
        },
    }
}

} // verus!

use ecommerce::common::numeros::{decimal, parsear_i32, parsear_usize};
use ecommerce::common::orden::Orden;
use ecommerce::common::socket::{get_cordinator_leader_value, id_to_addr_local};

#[test]
fn test_parsear_usize_lee_numeros_decimales() {
    assert_eq!(parsear_usize("0"), Some(0));
    assert_eq!(parsear_usize("5"), Some(5));
    assert_eq!(parsear_usize("123456"), Some(123456));
    assert_eq!(parsear_usize("0042"), Some(42));
    assert_eq!(parsear_usize("+17"), Some(17));
}

#[test]
fn test_parsear_usize_rechaza_lo_que_no_es_un_numero_sin_signo() {
    assert_eq!(parsear_usize(""), None);
    assert_eq!(parsear_usize("+"), None);
    assert_eq!(parsear_usize("-1"), None);
    assert_eq!(parsear_usize("-0"), None);
    assert_eq!(parsear_usize("12a"), None);
    assert_eq!(parsear_usize(" 12"), None);
    assert_eq!(parsear_usize("12 "), None);
    assert_eq!(parsear_usize("1.5"), None);
    assert_eq!(parsear_usize("++1"), None);
    assert_eq!(parsear_usize("١٢"), None);
}

#[test]
fn test_parsear_usize_en_el_limite() {
    let maximo = usize::MAX.to_string();
    assert_eq!(parsear_usize(&maximo), Some(usize::MAX));
    assert_eq!(parsear_usize("18446744073709551616"), None);
    assert_eq!(parsear_usize("99999999999999999999999999"), None);
    assert_eq!(parsear_usize("99999999999999999999999999x"), None);
}

#[test]
fn test_parsear_usize_coincide_con_la_biblioteca_estandar() {
    for texto in [
        "0", "7", "+7", "-7", "", "+", "-", "007", "1_000", "12 ", "4294967295",
        "4294967296", "18446744073709551615", "18446744073709551616", "abc", "+-3",
    ] {
        assert_eq!(parsear_usize(texto), texto.parse::<usize>().ok());
    }
}

#[test]
fn test_parsear_i32_lee_numeros_con_signo() {
    assert_eq!(parsear_i32("0"), Some(0));
    assert_eq!(parsear_i32("-32"), Some(-32));
    assert_eq!(parsear_i32("47"), Some(47));
    assert_eq!(parsear_i32("+47"), Some(47));
    assert_eq!(parsear_i32("-0"), Some(0));
    assert_eq!(parsear_i32("2147483647"), Some(i32::MAX));
    assert_eq!(parsear_i32("-2147483648"), Some(i32::MIN));
}

#[test]
fn test_parsear_i32_rechaza_lo_que_no_cabe_o_no_es_un_numero() {
    assert_eq!(parsear_i32("2147483648"), None);
    assert_eq!(parsear_i32("-2147483649"), None);
    assert_eq!(parsear_i32(""), None);
    assert_eq!(parsear_i32("-"), None);
    assert_eq!(parsear_i32("+"), None);
    assert_eq!(parsear_i32("--1"), None);
    assert_eq!(parsear_i32("-+1"), None);
    assert_eq!(parsear_i32("3-"), None);
    assert_eq!(parsear_i32("1e3"), None);
}

#[test]
fn test_parsear_i32_coincide_con_la_biblioteca_estandar() {
    for texto in [
        "0", "-0", "+0", "7", "+7", "-7", "", "+", "-", "007", "-007", "2147483647",
        "2147483648", "-2147483648", "-2147483649", "99999999999", "abc", " 1",
    ] {
        assert_eq!(parsear_i32(texto), texto.parse::<i32>().ok());
    }
}

#[test]
fn test_decimal_escribe_el_numero_sin_ceros_a_la_izquierda() {
    assert_eq!(decimal(0), "0");
    assert_eq!(decimal(7), "7");
    assert_eq!(decimal(10), "10");
    assert_eq!(decimal(1234567890), "1234567890");
    assert_eq!(decimal(usize::MAX), usize::MAX.to_string());
}

#[test]
fn test_lo_que_decimal_escribe_se_vuelve_a_leer() {
    for n in [0usize, 1, 9, 10, 99, 100, 255, 256, 65535, 123456789] {
        assert_eq!(parsear_usize(&decimal(n)), Some(n));
    }
}

#[test]
fn test_direccion_del_local_segun_su_id() {
    assert_eq!(id_to_addr_local(1), "127.0.0.1:12341");
    assert_eq!(id_to_addr_local(2), "127.0.0.1:12342");
    assert_eq!(id_to_addr_local(0), "127.0.0.1:12340");
    assert_eq!(id_to_addr_local(15), "127.0.0.1:123415");
}

#[test]
fn test_solo_el_nodo_1_es_el_lider() {
    assert!(get_cordinator_leader_value(1));
    assert!(!get_cordinator_leader_value(0));
    assert!(!get_cordinator_leader_value(2));
}

#[test]
fn test_texto_de_una_orden() {
    assert_eq!(Orden::new(1, 5, -32, 47).texto(), "1,5\n");
    assert_eq!(Orden::new(120, 0, 0, 0).texto(), "120,0\n");
}

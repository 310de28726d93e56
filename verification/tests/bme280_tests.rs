use waveshare_s3_3p::bme280_sensor::{
    configure_sequence, is_bme280, parse_raw_sample, Bme280, Bme280Reading,
};

fn datasheet_sensor() -> Bme280 {
    let mut s = Bme280::new_uncalibrated(0x76);
    s.dig_t1 = 27504;
    s.dig_t2 = 26435;
    s.dig_t3 = -1000;
    s.dig_p1 = 36477;
    s.dig_p2 = -10685;
    s.dig_p3 = 3024;
    s.dig_p4 = 2855;
    s.dig_p5 = 140;
    s.dig_p6 = -7;
    s.dig_p7 = 15500;
    s.dig_p8 = -14600;
    s.dig_p9 = 6000;
    s.dig_h1 = 75;
    s.dig_h2 = 362;
    s.dig_h3 = 0;
    s.dig_h4 = 315;
    s.dig_h5 = 50;
    s.dig_h6 = 30;
    s
}

fn burst(adc_p: u32, adc_t: u32, adc_h: u32) -> [u8; 8] {
    [
        (adc_p >> 12) as u8,
        (adc_p >> 4) as u8,
        ((adc_p & 0xF) << 4) as u8,
        (adc_t >> 12) as u8,
        (adc_t >> 4) as u8,
        ((adc_t & 0xF) << 4) as u8,
        (adc_h >> 8) as u8,
        adc_h as u8,
    ]
}

fn reference(s: &Bme280, adc_p: i32, adc_t: i32, adc_h: i32) -> Bme280Reading {
    let var1 = (((adc_t >> 3) - ((s.dig_t1 as i32) << 1)) * (s.dig_t2 as i32)) >> 11;
    let var2 = (((((adc_t >> 4) - (s.dig_t1 as i32)) * ((adc_t >> 4) - (s.dig_t1 as i32))) >> 12)
        * (s.dig_t3 as i32))
        >> 14;
    let t_fine = var1 + var2;
    let temperature = ((t_fine * 5 + 128) >> 8) as i64;

    let mut var1 = (t_fine as i64) - 128000;
    let mut var2 = var1 * var1 * (s.dig_p6 as i64);
    var2 += (var1 * (s.dig_p5 as i64)) << 17;
    var2 += (s.dig_p4 as i64) << 35;
    var1 = ((var1 * var1 * (s.dig_p3 as i64)) >> 8) + ((var1 * (s.dig_p2 as i64)) << 12);
    var1 = ((1i64 << 47) + var1) * (s.dig_p1 as i64) >> 33;
    let pressure = if var1 == 0 {
        0
    } else {
        let mut p: i64 = 1048576 - adc_p as i64;
        p = (((p << 31) - var2) * 3125) / var1;
        var1 = ((s.dig_p9 as i64) * (p >> 13) * (p >> 13)) >> 25;
        var2 = ((s.dig_p8 as i64) * p) >> 19;
        ((p + var1 + var2) >> 8) + ((s.dig_p7 as i64) << 4)
    };

    let v = (t_fine - 76800) as i64;
    let humidity = if v == 0 {
        0
    } else {
        let x1 = (adc_h as i64) - ((s.dig_h4 as i64) << 4) - (((s.dig_h5 as i64) * v) >> 14);
        let x2 = ((((v * (s.dig_h6 as i64)) >> 10) * (((v * (s.dig_h3 as i64)) >> 11) + 32768))
            >> 10)
            + 2097152;
        let mut var = (x1 * (((x2 * (s.dig_h2 as i64)) >> 10) + 8192)) >> 14;
        var -= (((var >> 15) * (var >> 15)) >> 7) * (s.dig_h1 as i64) >> 4;
        if var < 0 {
            var = 0;
        }
        if var > 419430400 {
            var = 419430400;
        }
        var >> 12
    };
    Bme280Reading { temperature, humidity, pressure }
}

#[test]
fn chip_identifier() {
    assert!(is_bme280(0x60));
    assert!(!is_bme280(0x58));
    assert!(!is_bme280(0x00));
}

#[test]
fn configuration_writes() {
    assert_eq!(configure_sequence(), [(0xF2, 0x01), (0xF5, 0xA0), (0xF4, 0x27)]);
}

#[test]
fn raw_sample_fields() {
    let raw = parse_raw_sample(&[0x65, 0x5A, 0xC0, 0x7E, 0xED, 0x00, 0x80, 0x01]);
    assert_eq!(raw.adc_p, 0x655AC);
    assert_eq!(raw.adc_t, 0x7EED0);
    assert_eq!(raw.adc_h, 0x8001);
    let top = parse_raw_sample(&[0xFF; 8]);
    assert_eq!((top.adc_p, top.adc_t, top.adc_h), (0xFFFFF, 0xFFFFF, 0xFFFF));
    let low = parse_raw_sample(&[0, 0, 0x0F, 0, 0, 0x0F, 0, 0]);
    assert_eq!((low.adc_p, low.adc_t, low.adc_h), (0, 0, 0));
}

#[test]
fn calibration_words_are_little_endian() {
    let mut block1 = [0u8; 26];
    let words: [u16; 12] = [
        27504,
        26435,
        (-1000i16) as u16,
        36477,
        (-10685i16) as u16,
        3024,
        2855,
        140,
        (-7i16) as u16,
        15500,
        (-14600i16) as u16,
        6000,
    ];
    for (i, w) in words.iter().enumerate() {
        block1[2 * i] = (*w & 0xFF) as u8;
        block1[2 * i + 1] = (*w >> 8) as u8;
    }
    let block2: [u8; 7] = [0x6A, 0x01, 0x00, 0x13, 0x2B, 0x03, 0x1E];
    let s = Bme280::read_calibration(0x77, &block1, 75, &block2);
    assert_eq!(s, {
        let mut expected = datasheet_sensor();
        expected.addr = 0x77;
        expected
    });
}

#[test]
fn humidity_calibration_nibbles_and_sign() {
    let block1 = [0u8; 26];
    let block2: [u8; 7] = [0xFF, 0xFF, 0x80, 0xFF, 0xA5, 0xFF, 0x80];
    let s = Bme280::read_calibration(0x76, &block1, 0, &block2);
    assert_eq!(s.dig_h2, -1);
    assert_eq!(s.dig_h3, 0x80);
    assert_eq!(s.dig_h4, 0xFF5);
    assert_eq!(s.dig_h5, 0xFFA);
    assert_eq!(s.dig_h6, -128);
}

#[test]
fn datasheet_example() {
    let s = datasheet_sensor();
    let r = s.read(&burst(415148, 519888, 30000)).unwrap();
    assert_eq!(r.temperature, 2508);
    assert_eq!(r.pressure, 25767233);
    assert_eq!(r.pressure / 256, 100653);
    assert_eq!(r, reference(&s, 415148, 519888, 30000));
}

#[test]
fn readings_match_the_data_sheet_formulas() {
    let s = datasheet_sensor();
    let temps: [u32; 7] = [0, 1, 400000, 519888, 540000, 700000, 0xFFFFF];
    let pressures: [u32; 5] = [0, 300000, 415148, 600000, 0xFFFFF];
    let humidities: [u32; 5] = [0, 20000, 30000, 45000, 0xFFFF];
    for adc_t in temps {
        for adc_p in pressures {
            for adc_h in humidities {
                assert_eq!(
                    s.read(&burst(adc_p, adc_t, adc_h)),
                    Some(reference(&s, adc_p as i32, adc_t as i32, adc_h as i32))
                );
            }
        }
    }
}

#[test]
fn uncalibrated_sensor_reads_no_temperature_and_no_pressure() {
    let s = Bme280::new_uncalibrated(0x76);
    assert_eq!(
        s.read(&burst(415148, 519888, 30000)),
        Some(Bme280Reading { temperature: 0, humidity: 3, pressure: 0 })
    );
}

#[test]
fn humidity_is_zero_at_the_skipped_fine_temperature() {
    let mut s = Bme280::new_uncalibrated(0x76);
    s.dig_t1 = 0;
    s.dig_t2 = 19200;
    let r = s.read(&burst(0, 65536, 30000)).unwrap();
    assert_eq!(r.temperature, 1500);
    assert_eq!(r.humidity, 0);
    assert_eq!(r, reference(&s, 0, 65536, 30000));
}

#[test]
fn humidity_is_held_between_zero_and_one_hundred_percent() {
    let mut s = datasheet_sensor();
    s.dig_h4 = 4095;
    let dry = s.read(&burst(415148, 519888, 0)).unwrap();
    assert_eq!(dry.humidity, 0);
    assert_eq!(dry, reference(&s, 415148, 519888, 0));
    s.dig_h4 = -32768;
    s.dig_h2 = i16::MAX;
    let wet = s.read(&burst(415148, 519888, 0xFFFF)).unwrap();
    assert_eq!(wet.humidity, 102400);
    assert_eq!(wet, reference(&s, 415148, 519888, 0xFFFF));
}

#[test]
fn overflowing_calibration_gives_no_reading() {
    let mut s = datasheet_sensor();
    s.dig_p1 = u16::MAX;
    s.dig_p2 = i16::MAX;
    s.dig_p3 = i16::MAX;
    s.dig_t2 = i16::MAX;
    s.dig_t3 = i16::MAX;
    assert_eq!(s.read(&burst(0, 0xFFFFF, 30000)), None);
}

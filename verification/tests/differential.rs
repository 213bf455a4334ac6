use eth_transfer::address::validate_address;
use eth_transfer::amount::Wei;
use eth_transfer::error::TransferError;
use eth_transfer::fee::{FeePolicy, LatestBlock};
use eth_transfer::txid::TransactionId;
use eth_transfer::units::parse_amount;

/// A small deterministic generator, so that every run sees the same cases.
struct Lcg(u64);

impl Lcg {
    fn next(&mut self) -> u64 {
        self.0 = self.0.wrapping_mul(6_364_136_223_846_793_005).wrapping_add(1_442_695_040_888_963_407);
        self.0 >> 11
    }

    fn below(&mut self, bound: u64) -> u64 {
        self.next() % bound
    }

    fn wide(&mut self) -> u128 {
        let bits = self.below(129) as u32;
        let raw = ((self.next() as u128) << 64) ^ ((self.next() as u128) << 11) ^ self.next() as u128;
        if bits == 0 {
            0
        } else if bits == 128 {
            raw
        } else {
            raw & ((1u128 << bits) - 1)
        }
    }
}

fn wei_of(value: u128) -> Wei {
    Wei { limbs: [value as u64, (value >> 64) as u64, 0, 0] }
}

/// The value of an amount by plain 128-bit arithmetic, for texts of at most
/// twenty digits before the fraction.
fn reference_amount(text: &str) -> Option<u128> {
    let mut digits: Vec<u32> = Vec::new();
    let mut fraction = 0usize;
    let mut dots = 0usize;
    for c in text.chars() {
        match c {
            '0'..='9' => {
                digits.push(c as u32 - '0' as u32);
                if dots > 0 {
                    fraction += 1;
                }
            }
            '.' => dots += 1,
            '_' => {}
            _ => return None,
        }
    }
    if dots > 1 || digits.is_empty() || fraction > 18 || digits.len() - fraction > 59 {
        return None;
    }
    assert!(digits.len() - fraction <= 20, "the reference cannot hold this case");
    let mut value: u128 = 0;
    for d in digits {
        value = value * 10 + d as u128;
    }
    for _ in fraction..18 {
        value *= 10;
    }
    Some(value)
}

#[test]
fn amounts_agree_with_plain_arithmetic() {
    let alphabet: Vec<char> = "0123456789012345678901234567890123456789..__-+ e".chars().collect();
    let mut rng = Lcg(1);
    let mut accepted = 0;
    for _ in 0..4000 {
        let length = rng.below(21) as usize;
        let text: String =
            (0..length).map(|_| alphabet[rng.below(alphabet.len() as u64) as usize]).collect();
        let expected = match reference_amount(&text) {
            Some(value) => Ok(wei_of(value)),
            None => Err(TransferError::AmountParseError { input: text.clone() }),
        };
        if expected.is_ok() {
            accepted += 1;
        }
        assert_eq!(parse_amount(&text), expected, "amount {:?}", text);
    }
    assert!(accepted > 500);
}

#[test]
fn decimal_text_agrees_with_plain_arithmetic() {
    let mut rng = Lcg(2);
    for _ in 0..2000 {
        let value = rng.wide();
        assert_eq!(wei_of(value).to_decimal(), value.to_string());
    }
}

#[test]
fn units_text_agrees_with_plain_arithmetic() {
    let mut rng = Lcg(3);
    for _ in 0..2000 {
        let value = rng.wide();
        let decimals = rng.below(39) as u32;
        let unit = 10u128.pow(decimals);
        let expected = if decimals == 0 {
            format!("{}.0", value)
        } else {
            format!("{}.{:0width$}", value / unit, value % unit, width = decimals as usize)
        };
        assert_eq!(wei_of(value).format_units(decimals), expected);
    }
}

#[test]
fn arithmetic_agrees_with_plain_arithmetic() {
    let mut rng = Lcg(4);
    for _ in 0..2000 {
        let a = rng.wide();
        let b = rng.wide();
        let (low, carry) = a.overflowing_add(b);
        let sum = Wei { limbs: [low as u64, (low >> 64) as u64, carry as u64, 0] };
        assert_eq!(wei_of(a).checked_add(&wei_of(b)), Some(sum));

        let x = a as u64;
        let y = b as u64;
        assert_eq!(
            wei_of(x as u128).checked_mul(&wei_of(y as u128)),
            Some(wei_of(x as u128 * y as u128))
        );

        let quotient = if b == 0 { None } else { Some(wei_of(a / b)) };
        assert_eq!(wei_of(a).checked_div(&wei_of(b)), quotient);

        assert_eq!(wei_of(a).lt(&wei_of(b)), a < b);
        assert_eq!(wei_of(a).le(&wei_of(b)), a <= b);
        assert_eq!(wei_of(a).same(&wei_of(b)), a == b);
    }
}

#[test]
fn estimates_agree_with_plain_arithmetic() {
    let mut rng = Lcg(5);
    for _ in 0..2000 {
        let base = rng.wide() >> 2;
        let divisor = rng.below(9);
        let tip = rng.next();
        let policy = FeePolicy {
            floor_base_fee: Wei::from_u64(rng.next()),
            priority_fee: Wei::from_u64(tip),
            margin_divisor: divisor,
            gas_limit: 21_000,
        };
        let block = LatestBlock { number: 0, base_fee: Some(wei_of(base)) };
        assert!(policy.can_price(&block));
        let margin = if divisor == 0 { 0 } else { base / divisor as u128 };
        let fees = policy.estimate(&block);
        assert_eq!(fees.base_fee, wei_of(base));
        assert_eq!(fees.effective_gas_price, wei_of(base + margin + tip as u128));
        assert!(fees.base_fee.le(&fees.effective_gas_price));
    }
}

fn hex_of(bytes: &[u8], rng: &mut Lcg) -> String {
    let mut text = String::new();
    for b in bytes {
        for nibble in [b >> 4, b & 15] {
            let c = std::char::from_digit(nibble as u32, 16).unwrap();
            text.push(if rng.below(2) == 0 { c } else { c.to_ascii_uppercase() });
        }
    }
    text
}

#[test]
fn addresses_agree_with_plain_decoding() {
    let mut rng = Lcg(6);
    for _ in 0..1000 {
        let mut bytes = [0u8; 20];
        for b in bytes.iter_mut() {
            *b = rng.next() as u8;
        }
        let digits = hex_of(&bytes, &mut rng);
        let text = if rng.below(2) == 0 { digits } else { format!("0x{}", digits) };
        assert_eq!(validate_address(&text).map(|id| id.bytes), Ok(bytes), "address {}", text);

        let mut spoiled: Vec<char> = text.chars().collect();
        let at = rng.below(spoiled.len() as u64) as usize;
        spoiled[at] = ['g', ' ', 'x', '-', '\u{e9}'][rng.below(5) as usize];
        let spoiled: String = spoiled.into_iter().collect();
        if spoiled != text {
            assert!(validate_address(&spoiled).is_err(), "address {:?}", spoiled);
        }
    }
}

#[test]
fn transaction_ids_agree_with_plain_decoding() {
    let mut rng = Lcg(7);
    for _ in 0..1000 {
        let mut bytes = [0u8; 32];
        for b in bytes.iter_mut() {
            *b = rng.next() as u8;
        }
        let text = format!("0x{}", hex_of(&bytes, &mut rng));
        assert_eq!(TransactionId::parse(&text), Some(TransactionId { bytes }));
        assert_eq!(TransactionId { bytes }.to_hex(), text.to_lowercase());
    }
}

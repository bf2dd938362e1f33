use dma_serial::serial::{Burst, Command, DmaUsart, Link, MockUsart, Serial};

fn leaked_buffer(bytes: [u8; 32]) -> &'static mut [u8; 32] {
    Box::leak(Box::new(bytes))
}

fn header(message_type: u8, length: u8, fill: u8) -> [u8; 32] {
    let mut bytes = [fill; 32];
    bytes[0] = message_type;
    bytes[1] = length;
    bytes
}

#[test]
fn new_link_arms_the_first_reception() {
    let mut send_buffer = [0u8; 32];
    let receive_buffer = leaked_buffer([0u8; 32]);
    let address = receive_buffer.as_ptr() as usize as u32;
    let link = Link::new(Serial::new(MockUsart::new(), &mut send_buffer), receive_buffer);
    assert_eq!(
        link.serial.usart.commands,
        vec![Command::Receive(Burst { address, length: 2 })]
    );
    assert_eq!(link.serial.send_buffer_pos, 0);
}

#[test]
fn rx_delivers_nothing_until_the_body_is_in() {
    let mut send_buffer = [0u8; 32];
    let receive_buffer = leaked_buffer(header(0x04, 0x03, 0x5A));
    let address = receive_buffer.as_ptr() as usize as u32;
    let mut link = Link::new(Serial::new(MockUsart::new(), &mut send_buffer), receive_buffer);
    assert_eq!(link.rx(), None);
    assert_eq!(link.serial.usart.commands.len(), 1);
    link.serial.usart.receive_pending = true;
    assert_eq!(link.rx(), None);
    assert_eq!(
        link.serial.usart.commands,
        vec![
            Command::Receive(Burst { address, length: 2 }),
            Command::Receive(Burst { address: address.wrapping_add(2), length: 3 }),
        ]
    );
    link.serial.usart.receive_pending = false;
    assert_eq!(link.rx(), None);
    assert_eq!(link.serial.usart.commands.len(), 2);
}

#[test]
fn rx_delivers_the_frame_and_arms_the_next_reception() {
    let mut send_buffer = [0u8; 32];
    let receive_buffer = leaked_buffer(header(0x04, 0x03, 0x5A));
    let address = receive_buffer.as_ptr() as usize as u32;
    let mut link = Link::new(Serial::new(MockUsart::new(), &mut send_buffer), receive_buffer);
    link.serial.usart.receive_pending = true;
    assert_eq!(link.rx(), None);
    assert_eq!(link.rx(), Some(header(0x04, 0x03, 0x5A)));
    assert_eq!(
        link.serial.usart.commands,
        vec![
            Command::Receive(Burst { address, length: 2 }),
            Command::Receive(Burst { address: address.wrapping_add(2), length: 3 }),
            Command::Receive(Burst { address, length: 2 }),
        ]
    );
    assert_eq!(link.rx(), None);
    assert_eq!(link.rx(), Some(header(0x04, 0x03, 0x5A)));
    assert_eq!(link.serial.usart.commands.len(), 5);
}

#[test]
fn rx_leaves_the_send_side_alone() {
    let mut send_buffer = [0u8; 32];
    let mut link = Link::new(
        Serial::new(MockUsart::new(), &mut send_buffer),
        leaked_buffer(header(0x01, 0x00, 0x00)),
    );
    assert_eq!(link.serial.send(0x0C, 0x0D, &[1, 2, 3]), Ok(()));
    let held = *link.serial.send_buffer();
    link.serial.usart.receive_pending = true;
    assert_eq!(link.rx(), None);
    assert_eq!(link.rx(), Some(header(0x01, 0x00, 0x00)));
    assert_eq!(link.serial.send_buffer_pos, 6);
    assert_eq!(*link.serial.send_buffer(), held);
}

#[test]
fn tx_frees_the_send_buffer() {
    let mut send_buffer = [0u8; 32];
    let mut link = Link::new(
        Serial::new(MockUsart::new(), &mut send_buffer),
        leaked_buffer([0u8; 32]),
    );
    assert_eq!(link.serial.send(0x0C, 0x0D, &[0x11; 25]), Ok(()));
    assert_eq!(link.serial.send(0x0C, 0x0D, &[0x22; 25]), Err(nb::Error::WouldBlock));
    link.tx();
    assert_eq!(link.serial.send_buffer_pos, 0);
    assert_eq!(link.serial.usart.commands.last(), Some(&Command::TxInterrupt));
    assert_eq!(link.serial.send(0x0C, 0x0D, &[0x22; 25]), Ok(()));
    assert_eq!(link.serial.send_buffer_pos, 28);
    assert_eq!(&link.serial.send_buffer()[3..28], &[0x22; 25]);
    assert!(!link.serial.usart.is_receive_pending());
}

#[test]
fn complete_takes_one_step_for_the_answer_it_is_given() {
    let mut send_buffer = [0u8; 32];
    let receive_buffer = leaked_buffer(header(0x0E, 0x02, 0x99));
    let address = receive_buffer.as_ptr() as usize as u32;
    let mut link = Link::new(Serial::new(MockUsart::new(), &mut send_buffer), receive_buffer);
    assert_eq!(link.complete(false), None);
    assert_eq!(link.serial.usart.commands.len(), 1);
    assert_eq!(link.complete(true), None);
    assert_eq!(
        link.serial.usart.commands,
        vec![
            Command::Receive(Burst { address, length: 2 }),
            Command::Receive(Burst { address: address.wrapping_add(2), length: 2 }),
        ]
    );
    assert_eq!(link.complete(false), None);
    assert_eq!(link.serial.usart.commands.len(), 2);
    assert_eq!(link.complete(true), Some(header(0x0E, 0x02, 0x99)));
    assert_eq!(
        link.serial.usart.commands,
        vec![
            Command::Receive(Burst { address, length: 2 }),
            Command::Receive(Burst { address: address.wrapping_add(2), length: 2 }),
            Command::Receive(Burst { address, length: 2 }),
        ]
    );
}

#[test]
fn complete_never_asks_the_adapter() {
    let mut send_buffer = [0u8; 32];
    let mut link = Link::new(
        Serial::new(Counting { asked: 0, armed: 0 }, &mut send_buffer),
        leaked_buffer(header(0x01, 0x01, 0x00)),
    );
    assert_eq!(link.complete(true), None);
    assert_eq!(link.complete(true), Some(header(0x01, 0x01, 0x00)));
    assert_eq!(link.serial.usart.asked, 0);
    assert_eq!(link.serial.usart.armed, 3);
    assert_eq!(link.rx(), None);
    assert_eq!(link.serial.usart.asked, 1);
    assert_eq!(link.serial.usart.armed, 3);
}

struct Counting {
    asked: u32,
    armed: u32,
}

impl DmaUsart for Counting {
    fn is_receive_pending(&mut self) -> bool {
        self.asked += 1;
        false
    }

    fn receive(&mut self, _length: u16, _buffer: u32) {
        self.armed += 1;
    }

    fn is_send_ready(&mut self) -> bool {
        true
    }

    fn send(&mut self, _buffer: u32, _len: u16) {}

    fn ack_wakeup(&mut self) {}

    fn tx_interrupt(&mut self) {}
}
